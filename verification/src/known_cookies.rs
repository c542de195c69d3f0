//! Built-in descriptions of well-known cookies, looked up by cookie name.

use vstd::prelude::*;
use crate::text::{chars_of, chars_eq, chars_start_with, has_prefix};

verus! {

/// The built-in description of a cookie whose name is exactly one of the
/// names that the dictionary lists.
pub open spec fn exact_description(name: Seq<char>) -> Option<Seq<char>> {
    if name == "NID"@ {
        Some("Google: unique browser/user ID for ads & preferences"@)
    } else if name == "SID"@ || name == "HSID"@ || name == "SSID"@ {
        Some("Google: account session authentication"@)
    } else if name == "APISID"@ || name == "SAPISID"@ {
        Some("Google: API session identifier"@)
    } else if name == "1P_JAR"@ {
        Some("Google: ad targeting & conversion tracking"@)
    } else if name == "CONSENT"@ {
        Some("Google: cookie consent state"@)
    } else if name == "OGPC"@ || name == "OGP"@ {
        Some("Google: Google+ session preferences"@)
    } else if name == "AEC"@ {
        Some("Google: fraud prevention & ad integrity"@)
    } else if name == "SOCS"@ {
        Some("Google: cookie consent / NID opt-out flag"@)
    } else if name == "__gsas"@ {
        Some("Google: AdSense ad personalisation"@)
    } else if name == "DV"@ {
        Some("Google: rate-limiting & regional preferences"@)
    } else if name == "SEARCH_SAMESITE"@ {
        Some("Google: SameSite cross-site tracking guard"@)
    } else if name == "ANID"@ {
        Some("Google: advertising cookie for non-Google sites"@)
    } else if name == "_ga"@ {
        Some("Google Analytics: unique visitor identifier"@)
    } else if name == "_gid"@ {
        Some("Google Analytics: 24h visitor identifier"@)
    } else if name == "_gat"@ {
        Some("Google Analytics: request throttle flag"@)
    } else if name == "_gcl_au"@ {
        Some("Google Ads: conversion linker click ID"@)
    } else if name == "__gads"@ {
        Some("Google Ads: ad-serving & frequency capping"@)
    } else if name == "_fbp"@ {
        Some("Meta Pixel: browser-level user identifier"@)
    } else if name == "_fbc"@ {
        Some("Meta Pixel: click identifier from ad click"@)
    } else if name == "fr"@ {
        Some("Facebook: ad delivery & measurement"@)
    } else if name == "sb"@ {
        Some("Facebook: browser identification for security"@)
    } else if name == "datr"@ {
        Some("Facebook: browser integrity / spam prevention"@)
    } else if name == "xs"@ {
        Some("Facebook: session ID tied to account"@)
    } else if name == "c_user"@ {
        Some("Facebook: logged-in user ID"@)
    } else if name == "MUID"@ {
        Some("Microsoft: unique machine/user identifier"@)
    } else if name == "ANON"@ {
        Some("Microsoft: anonymous user preferences"@)
    } else if name == "NAP"@ {
        Some("Microsoft: authentication profile token"@)
    } else if name == "MSFPC"@ || name == "MC1"@ {
        Some("Microsoft: first-party analytics identifier"@)
    } else if name == "AI_sentBuffer"@ {
        Some("Azure Application Insights: telemetry buffer"@)
    } else if name == "__cf_bm"@ {
        Some("Cloudflare: bot-management challenge token"@)
    } else if name == "cf_clearance"@ {
        Some("Cloudflare: visitor passed JS/CAPTCHA challenge"@)
    } else if name == "__cfruid"@ {
        Some("Cloudflare: rate-limiting session identifier"@)
    } else if name == "__cfduid"@ {
        Some("Cloudflare (legacy): client identification"@)
    } else if name == "__hstc"@ {
        Some("HubSpot: main visitor tracking cookie"@)
    } else if name == "hubspotutk"@ {
        Some("HubSpot: visitor identity for form submissions"@)
    } else if name == "__hssc"@ {
        Some("HubSpot: session-level page view counter"@)
    } else if name == "__hssrc"@ {
        Some("HubSpot: session reset detection flag"@)
    } else if name == "bcookie"@ {
        Some("LinkedIn: browser identifier for security"@)
    } else if name == "li_sugr"@ {
        Some("LinkedIn: cross-domain visitor identifier"@)
    } else if name == "lidc"@ {
        Some("LinkedIn: data-center routing cookie"@)
    } else if name == "li_at"@ {
        Some("LinkedIn: member authentication token"@)
    } else if name == "UserMatchHistory"@ {
        Some("LinkedIn: ad sync / audience matching"@)
    } else if name == "AnalyticsSyncHistory"@ {
        Some("LinkedIn: analytics partner sync"@)
    } else if name == "lang"@ {
        Some("LinkedIn: UI language preference"@)
    } else if name == "_ttp"@ {
        Some("TikTok Pixel: visitor attribution identifier"@)
    } else if name == "ttwid"@ {
        Some("TikTok: unique session/user identifier"@)
    } else if name == "tt_csrf_token"@ {
        Some("TikTok: CSRF protection token"@)
    } else if name == "msToken"@ {
        Some("TikTok: anti-bot verification token"@)
    } else if name == "_pinterest_sess"@ {
        Some("Pinterest: session authentication token"@)
    } else if name == "_pin_unauth"@ {
        Some("Pinterest: anonymous / first-party identifier"@)
    } else if name == "_routing_id"@ {
        Some("Pinterest: server routing / load-balancing"@)
    } else if name == "_twitter_sess"@ {
        Some("Twitter: session authentication token"@)
    } else if name == "ct0"@ {
        Some("Twitter: CSRF / authenticity token"@)
    } else if name == "guest_id"@ {
        Some("Twitter: logged-out visitor identifier"@)
    } else if name == "personalization_id"@ {
        Some("Twitter: personalisation / ad tracking"@)
    } else if name == "PLAY_SESSION"@ {
        Some("Workday: Play Framework session token"@)
    } else if name == "wday_vps_cookie"@ {
        Some("Workday: virtual-proxy server routing"@)
    } else if name == "wd-browser-id"@ {
        Some("Workday: browser fingerprint for session"@)
    } else if name == "glide_user_route"@ {
        Some("ServiceNow: node affinity / routing"@)
    } else if name == "glide_session_store"@ {
        Some("ServiceNow: server-side session ID"@)
    } else if name == "sap-usercontext"@ {
        Some("SAP: user locale & client context"@)
    } else if name == "MYSAPSSO2"@ {
        Some("SAP: Single Sign-On v2 ticket"@)
    } else if name == "BrowserId"@ {
        Some("Salesforce: browser-level tracking identifier"@)
    } else if name == "CookieConsentPolicy"@ {
        Some("Salesforce: consent categories accepted"@)
    } else if name == "sid"@ {
        Some("Salesforce: session authentication ID"@)
    } else if name == "oid"@ {
        Some("Salesforce: organization / tenant ID"@)
    } else if name == "inst"@ {
        Some("Salesforce: instance routing identifier"@)
    } else if name == "cloud.session.token"@ {
        Some("Atlassian Cloud: session authentication"@)
    } else if name == "atlassian.xsrf.token"@ {
        Some("Atlassian: CSRF protection token"@)
    } else if name == "tenant.session.token"@ {
        Some("Atlassian: multi-tenant session binding"@)
    } else if name == "_zendesk_cookie"@ {
        Some("Zendesk: general tracking identifier"@)
    } else if name == "_zendesk_session"@ {
        Some("Zendesk: support session token"@)
    } else if name == "_zendesk_shared_session"@ {
        Some("Zendesk: cross-subdomain session"@)
    } else if name == "AWSALB"@ {
        Some("AWS ALB: sticky session for load balancer"@)
    } else if name == "AWSALBCORS"@ {
        Some("AWS ALB: CORS-aware sticky session"@)
    } else if name == "aws-waf-token"@ {
        Some("AWS WAF: bot-protection verification token"@)
    } else if name == "__stripe_mid"@ {
        Some("Stripe: merchant-level fraud-prevention ID"@)
    } else if name == "__stripe_sid"@ {
        Some("Stripe: session-level fraud-prevention ID"@)
    } else if name == "ajs_user_id"@ {
        Some("Segment: identified user analytics ID"@)
    } else if name == "ajs_anonymous_id"@ {
        Some("Segment: anonymous visitor analytics ID"@)
    } else if name == "optimizelyEndUserId"@ {
        Some("Optimizely: A/B test user identifier"@)
    } else if name == "_dd_s"@ {
        Some("Datadog RUM: browser session tracking"@)
    } else if name == "csrftoken"@ {
        Some("CSRF: cross-site request forgery protection token"@)
    } else if name == "PHPSESSID"@ {
        Some("PHP: server-side session identifier"@)
    } else if name == "JSESSIONID"@ {
        Some("Java Servlet: server-side session identifier"@)
    } else if name == "ASP.NET_SessionId"@ {
        Some("ASP.NET: server-side session identifier"@)
    } else if name == "connect.sid"@ {
        Some("Node.js Express: session identifier"@)
    } else if name == "rack.session"@ {
        Some("Ruby Rack: server-side session identifier"@)
    } else if name == "laravel_session"@ {
        Some("Laravel: encrypted session identifier"@)
    } else if name == "_csrf"@ || name == "XSRF-TOKEN"@ {
        Some("CSRF: cross-site request forgery token"@)
    } else {
        None
    }
}

/// The built-in description of a cookie by a family prefix of its name.
pub open spec fn prefix_description(name: Seq<char>) -> Option<Seq<char>> {
    if has_prefix(name, "__Secure-"@) {
        Some("Google: secure cross-site authentication"@)
    } else if has_prefix(name, "_ga_"@) {
        Some("Google Analytics: measurement stream session"@)
    } else if has_prefix(name, "SAP_SESSIONID_"@) {
        Some("SAP: application server session ID"@)
    } else if has_prefix(name, "ORA_"@) {
        Some("Oracle: application tracking / session"@)
    } else if has_prefix(name, "BIGipServer"@) {
        Some("F5 / ServiceNow: server-pool persistence"@)
    } else if has_prefix(name, "_hjSessionUser_"@) {
        Some("Hotjar: returning visitor identifier"@)
    } else if has_prefix(name, "_hjSession_"@) {
        Some("Hotjar: active session data"@)
    } else if has_prefix(name, "intercom-id-"@) {
        Some("Intercom: visitor identity token"@)
    } else if has_prefix(name, "intercom-session-"@) {
        Some("Intercom: session state token"@)
    } else if has_prefix(name, "wp-settings-"@) {
        Some("WordPress: admin UI preferences"@)
    } else if has_prefix(name, "wordpress_logged_in_"@) {
        Some("WordPress: authenticated login state"@)
    } else if has_prefix(name, "ajs_"@) {
        Some("Segment: analytics event metadata"@)
    } else {
        None
    }
}

/// The description that the dictionary gives a cookie named `name`: an exact
/// entry first, else the entry of a family prefix of the name.
pub open spec fn known_description(name: Seq<char>) -> Option<Seq<char>> {
    match exact_description(name) {
        Some(d) => Some(d),
        None => prefix_description(name),
    }
}

/// Whether the characters `v` spell the literal `lit`.
fn is_literal(v: &[char], lit: &str) -> (r: bool)
    ensures
        r == (v@ == lit@),
{
    let w = chars_of(lit);
    chars_eq(v, w.as_slice())
}

/// Whether the characters `v` start with the literal `lit`.
fn starts_with_literal(v: &[char], lit: &str) -> (r: bool)
    ensures
        r == has_prefix(v@, lit@),
{
    let w = chars_of(lit);
    chars_start_with(v, w.as_slice())
}

/// Looks up the built-in description of the cookie named `name`.
pub fn lookup(name: &str) -> (r: Option<&'static str>)
    ensures
        r matches Some(d) ==> known_description(name@) == Some(d@),
        r is None ==> known_description(name@) is None,
{
    let v = chars_of(name);
    let n = v.as_slice();
    if is_literal(n, "NID") {
        Some("Google: unique browser/user ID for ads & preferences")
    } else if is_literal(n, "SID") || is_literal(n, "HSID") || is_literal(n, "SSID") {
        Some("Google: account session authentication")
    } else if is_literal(n, "APISID") || is_literal(n, "SAPISID") {
        Some("Google: API session identifier")
    } else if is_literal(n, "1P_JAR") {
        Some("Google: ad targeting & conversion tracking")
    } else if is_literal(n, "CONSENT") {
        Some("Google: cookie consent state")
    } else if is_literal(n, "OGPC") || is_literal(n, "OGP") {
        Some("Google: Google+ session preferences")
    } else if is_literal(n, "AEC") {
        Some("Google: fraud prevention & ad integrity")
    } else if is_literal(n, "SOCS") {
        Some("Google: cookie consent / NID opt-out flag")
    } else if is_literal(n, "__gsas") {
        Some("Google: AdSense ad personalisation")
    } else if is_literal(n, "DV") {
        Some("Google: rate-limiting & regional preferences")
    } else if is_literal(n, "SEARCH_SAMESITE") {
        Some("Google: SameSite cross-site tracking guard")
    } else if is_literal(n, "ANID") {
        Some("Google: advertising cookie for non-Google sites")
    } else if is_literal(n, "_ga") {
        Some("Google Analytics: unique visitor identifier")
    } else if is_literal(n, "_gid") {
        Some("Google Analytics: 24h visitor identifier")
    } else if is_literal(n, "_gat") {
        Some("Google Analytics: request throttle flag")
    } else if is_literal(n, "_gcl_au") {
        Some("Google Ads: conversion linker click ID")
    } else if is_literal(n, "__gads") {
        Some("Google Ads: ad-serving & frequency capping")
    } else if is_literal(n, "_fbp") {
        Some("Meta Pixel: browser-level user identifier")
    } else if is_literal(n, "_fbc") {
        Some("Meta Pixel: click identifier from ad click")
    } else if is_literal(n, "fr") {
        Some("Facebook: ad delivery & measurement")
    } else if is_literal(n, "sb") {
        Some("Facebook: browser identification for security")
    } else if is_literal(n, "datr") {
        Some("Facebook: browser integrity / spam prevention")
    } else if is_literal(n, "xs") {
        Some("Facebook: session ID tied to account")
    } else if is_literal(n, "c_user") {
        Some("Facebook: logged-in user ID")
    } else if is_literal(n, "MUID") {
        Some("Microsoft: unique machine/user identifier")
    } else if is_literal(n, "ANON") {
        Some("Microsoft: anonymous user preferences")
    } else if is_literal(n, "NAP") {
        Some("Microsoft: authentication profile token")
    } else if is_literal(n, "MSFPC") || is_literal(n, "MC1") {
        Some("Microsoft: first-party analytics identifier")
    } else if is_literal(n, "AI_sentBuffer") {
        Some("Azure Application Insights: telemetry buffer")
    } else if is_literal(n, "__cf_bm") {
        Some("Cloudflare: bot-management challenge token")
    } else if is_literal(n, "cf_clearance") {
        Some("Cloudflare: visitor passed JS/CAPTCHA challenge")
    } else if is_literal(n, "__cfruid") {
        Some("Cloudflare: rate-limiting session identifier")
    } else if is_literal(n, "__cfduid") {
        Some("Cloudflare (legacy): client identification")
    } else if is_literal(n, "__hstc") {
        Some("HubSpot: main visitor tracking cookie")
    } else if is_literal(n, "hubspotutk") {
        Some("HubSpot: visitor identity for form submissions")
    } else if is_literal(n, "__hssc") {
        Some("HubSpot: session-level page view counter")
    } else if is_literal(n, "__hssrc") {
        Some("HubSpot: session reset detection flag")
    } else if is_literal(n, "bcookie") {
        Some("LinkedIn: browser identifier for security")
    } else if is_literal(n, "li_sugr") {
        Some("LinkedIn: cross-domain visitor identifier")
    } else if is_literal(n, "lidc") {
        Some("LinkedIn: data-center routing cookie")
    } else if is_literal(n, "li_at") {
        Some("LinkedIn: member authentication token")
    } else if is_literal(n, "UserMatchHistory") {
        Some("LinkedIn: ad sync / audience matching")
    } else if is_literal(n, "AnalyticsSyncHistory") {
        Some("LinkedIn: analytics partner sync")
    } else if is_literal(n, "lang") {
        Some("LinkedIn: UI language preference")
    } else if is_literal(n, "_ttp") {
        Some("TikTok Pixel: visitor attribution identifier")
    } else if is_literal(n, "ttwid") {
        Some("TikTok: unique session/user identifier")
    } else if is_literal(n, "tt_csrf_token") {
        Some("TikTok: CSRF protection token")
    } else if is_literal(n, "msToken") {
        Some("TikTok: anti-bot verification token")
    } else if is_literal(n, "_pinterest_sess") {
        Some("Pinterest: session authentication token")
    } else if is_literal(n, "_pin_unauth") {
        Some("Pinterest: anonymous / first-party identifier")
    } else if is_literal(n, "_routing_id") {
        Some("Pinterest: server routing / load-balancing")
    } else if is_literal(n, "_twitter_sess") {
        Some("Twitter: session authentication token")
    } else if is_literal(n, "ct0") {
        Some("Twitter: CSRF / authenticity token")
    } else if is_literal(n, "guest_id") {
        Some("Twitter: logged-out visitor identifier")
    } else if is_literal(n, "personalization_id") {
        Some("Twitter: personalisation / ad tracking")
    } else if is_literal(n, "PLAY_SESSION") {
        Some("Workday: Play Framework session token")
    } else if is_literal(n, "wday_vps_cookie") {
        Some("Workday: virtual-proxy server routing")
    } else if is_literal(n, "wd-browser-id") {
        Some("Workday: browser fingerprint for session")
    } else if is_literal(n, "glide_user_route") {
        Some("ServiceNow: node affinity / routing")
    } else if is_literal(n, "glide_session_store") {
        Some("ServiceNow: server-side session ID")
    } else if is_literal(n, "sap-usercontext") {
        Some("SAP: user locale & client context")
    } else if is_literal(n, "MYSAPSSO2") {
        Some("SAP: Single Sign-On v2 ticket")
    } else if is_literal(n, "BrowserId") {
        Some("Salesforce: browser-level tracking identifier")
    } else if is_literal(n, "CookieConsentPolicy") {
        Some("Salesforce: consent categories accepted")
    } else if is_literal(n, "sid") {
        Some("Salesforce: session authentication ID")
    } else if is_literal(n, "oid") {
        Some("Salesforce: organization / tenant ID")
    } else if is_literal(n, "inst") {
        Some("Salesforce: instance routing identifier")
    } else if is_literal(n, "cloud.session.token") {
        Some("Atlassian Cloud: session authentication")
    } else if is_literal(n, "atlassian.xsrf.token") {
        Some("Atlassian: CSRF protection token")
    } else if is_literal(n, "tenant.session.token") {
        Some("Atlassian: multi-tenant session binding")
    } else if is_literal(n, "_zendesk_cookie") {
        Some("Zendesk: general tracking identifier")
    } else if is_literal(n, "_zendesk_session") {
        Some("Zendesk: support session token")
    } else if is_literal(n, "_zendesk_shared_session") {
        Some("Zendesk: cross-subdomain session")
    } else if is_literal(n, "AWSALB") {
        Some("AWS ALB: sticky session for load balancer")
    } else if is_literal(n, "AWSALBCORS") {
        Some("AWS ALB: CORS-aware sticky session")
    } else if is_literal(n, "aws-waf-token") {
        Some("AWS WAF: bot-protection verification token")
    } else if is_literal(n, "__stripe_mid") {
        Some("Stripe: merchant-level fraud-prevention ID")
    } else if is_literal(n, "__stripe_sid") {
        Some("Stripe: session-level fraud-prevention ID")
    } else if is_literal(n, "ajs_user_id") {
        Some("Segment: identified user analytics ID")
    } else if is_literal(n, "ajs_anonymous_id") {
        Some("Segment: anonymous visitor analytics ID")
    } else if is_literal(n, "optimizelyEndUserId") {
        Some("Optimizely: A/B test user identifier")
    } else if is_literal(n, "_dd_s") {
        Some("Datadog RUM: browser session tracking")
    } else if is_literal(n, "csrftoken") {
        Some("CSRF: cross-site request forgery protection token")
    } else if is_literal(n, "PHPSESSID") {
        Some("PHP: server-side session identifier")
    } else if is_literal(n, "JSESSIONID") {
        Some("Java Servlet: server-side session identifier")
    } else if is_literal(n, "ASP.NET_SessionId") {
        Some("ASP.NET: server-side session identifier")
    } else if is_literal(n, "connect.sid") {
        Some("Node.js Express: session identifier")
    } else if is_literal(n, "rack.session") {
        Some("Ruby Rack: server-side session identifier")
    } else if is_literal(n, "laravel_session") {
        Some("Laravel: encrypted session identifier")
    } else if is_literal(n, "_csrf") || is_literal(n, "XSRF-TOKEN") {
        Some("CSRF: cross-site request forgery token")
    } else {
        lookup_prefix(name)
    }
}

/// Looks up the description of the cookie named `name` by a family prefix of
/// its name alone.
pub fn lookup_prefix(name: &str) -> (r: Option<&'static str>)
    ensures
        r matches Some(d) ==> prefix_description(name@) == Some(d@),
        r is None ==> prefix_description(name@) is None,
{
    let v = chars_of(name);
    let n = v.as_slice();
    if starts_with_literal(n, "__Secure-") {
        Some("Google: secure cross-site authentication")
    } else if starts_with_literal(n, "_ga_") {
        Some("Google Analytics: measurement stream session")
    } else if starts_with_literal(n, "SAP_SESSIONID_") {
        Some("SAP: application server session ID")
    } else if starts_with_literal(n, "ORA_") {
        Some("Oracle: application tracking / session")
    } else if starts_with_literal(n, "BIGipServer") {
        Some("F5 / ServiceNow: server-pool persistence")
    } else if starts_with_literal(n, "_hjSessionUser_") {
        Some("Hotjar: returning visitor identifier")
    } else if starts_with_literal(n, "_hjSession_") {
        Some("Hotjar: active session data")
    } else if starts_with_literal(n, "intercom-id-") {
        Some("Intercom: visitor identity token")
    } else if starts_with_literal(n, "intercom-session-") {
        Some("Intercom: session state token")
    } else if starts_with_literal(n, "wp-settings-") {
        Some("WordPress: admin UI preferences")
    } else if starts_with_literal(n, "wordpress_logged_in_") {
        Some("WordPress: authenticated login state")
    } else if starts_with_literal(n, "ajs_") {
        Some("Segment: analytics event metadata")
    } else {
        None
    }
}

} // verus!
