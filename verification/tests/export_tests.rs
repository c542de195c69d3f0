use edit_cookie_malaccamax::export::{
    duplicate_name, format_netscape, format_relative_expiry, format_semicolon, sanitize_filename,
    CopyFormat,
};
use edit_cookie_malaccamax::types::Cookie;

fn sample() -> Cookie {
    Cookie {
        name: "session".into(),
        value: "abc123".into(),
        domain: ".example.com".into(),
        path: Some("/".into()),
        expiration_date: Some(1735689600),
        http_only: false,
        secure: true,
        same_site: None,
        store_id: None,
    }
}

#[test]
fn netscape_line_from_readme() {
    assert_eq!(
        format_netscape(&sample()),
        ".example.com\tTRUE\t/\tTRUE\t1735689600\tsession\tabc123"
    );
}

#[test]
fn netscape_host_only_session_without_path() {
    let mut c = sample();
    c.domain = "example.com".into();
    c.path = None;
    c.secure = false;
    c.expiration_date = None;
    assert_eq!(format_netscape(&c), "example.com\tFALSE\t/\tFALSE\t0\tsession\tabc123");
    c.expiration_date = Some(-42);
    assert_eq!(format_netscape(&c), "example.com\tFALSE\t/\tFALSE\t-42\tsession\tabc123");
}

#[test]
fn semicolon_pair_from_readme() {
    assert_eq!(format_semicolon(&sample()), "session=abc123");
}

#[test]
fn copy_format_names_and_extensions() {
    assert_eq!(CopyFormat::from_name("json"), CopyFormat::Json);
    assert_eq!(CopyFormat::from_name("netscape"), CopyFormat::Netscape);
    assert_eq!(CopyFormat::from_name("semicolon"), CopyFormat::Semicolon);
    assert_eq!(CopyFormat::from_name("anything"), CopyFormat::Semicolon);
    assert_eq!(CopyFormat::Json.extension(), "json");
    assert_eq!(CopyFormat::Netscape.extension(), "txt");
    assert_eq!(CopyFormat::Semicolon.extension(), "txt");
}

#[test]
fn filenames_are_sanitized() {
    assert_eq!(sanitize_filename("session", "json"), "session.json");
    assert_eq!(sanitize_filename("a/b\\c:d*e?f\"g<h>i|j", "txt"), "a_b_c_d_e_f_g_h_i_j.txt");
    assert_eq!(sanitize_filename("..hidden", "txt"), "hidden.txt");
    assert_eq!(sanitize_filename("...", "txt"), "cookie.txt");
    assert_eq!(sanitize_filename("", "json"), "cookie.json");
    assert_eq!(sanitize_filename("tab\there\u{85}", "txt"), "tab_here_.txt");
    assert_eq!(sanitize_filename("._x", "txt"), "_x.txt");
}

#[test]
fn duplicate_names() {
    assert_eq!(duplicate_name("sid"), "sid_copy");
    assert_eq!(duplicate_name("sid_copy"), "sid_copy");
    assert_eq!(duplicate_name("sid_copy_copy"), "sid_copy");
    assert_eq!(duplicate_name("_copy"), "_copy");
    assert_eq!(duplicate_name("x_cop"), "x_cop_copy");
    let long = "n".repeat(300);
    let d = duplicate_name(&long);
    assert_eq!(d.len(), 255);
    assert_eq!(d, "n".repeat(255));
    assert_eq!(duplicate_name(&d), "n".repeat(255));
}

#[test]
fn duplicate_names_are_cut_by_characters() {
    let name = format!("a{}", "é".repeat(127));
    assert_eq!(name.len(), 255);
    assert_eq!(duplicate_name(&name), format!("{}_copy", name));
    let wide = "é".repeat(300);
    let d = duplicate_name(&wide);
    assert_eq!(d.chars().count(), 255);
    assert_eq!(d, "é".repeat(255));
    assert_eq!(duplicate_name("a_copy_copy"), "a_copy");
}

#[test]
fn relative_expiry_labels() {
    let now = 1_000_000;
    assert_eq!(format_relative_expiry(None, now), "Session");
    assert_eq!(format_relative_expiry(Some(now), now), "Expired");
    assert_eq!(format_relative_expiry(Some(now - 5), now), "Expired");
    assert_eq!(format_relative_expiry(Some(now + 1), now), "1m");
    assert_eq!(format_relative_expiry(Some(now + 59), now), "1m");
    assert_eq!(format_relative_expiry(Some(now + 89), now), "1m");
    assert_eq!(format_relative_expiry(Some(now + 91), now), "2m");
    assert_eq!(format_relative_expiry(Some(now + 3599), now), "60m");
    assert_eq!(format_relative_expiry(Some(now + 3600), now), "1h");
    assert_eq!(format_relative_expiry(Some(now + 86_399), now), "24h");
    assert_eq!(format_relative_expiry(Some(now + 86_400 * 3), now), "3d");
    assert_eq!(format_relative_expiry(Some(now + 86_400 * 45), now), "2mo");
    assert_eq!(format_relative_expiry(Some(now + 86_400 * 400), now), "1y");
    assert_eq!(format_relative_expiry(Some(now + 86_400 * 365 * 10), now), "10y");
}

#[test]
fn relative_expiry_ties_round_to_even() {
    let now = 0;
    assert_eq!(format_relative_expiry(Some(90), now), "2m");
    assert_eq!(format_relative_expiry(Some(150), now), "2m");
    assert_eq!(format_relative_expiry(Some(86_400 + 43_200), now), "2d");
    assert_eq!(format_relative_expiry(Some(86_400 * 2 + 43_200), now), "2d");
    assert_eq!(format!("{:.0}", 2.5f64), "2");
    assert_eq!(format!("{:.0}", 1.5f64), "2");
}
