//! The dictionary of well-known cookies, entry by entry, and the law that
//! every listed name is described as the dictionary lists it.

use vstd::prelude::*;
use crate::known_cookies::known_description;

verus! {

/// The number of names in the dictionary of well-known cookies.
pub open spec fn well_known_count() -> int {
    96
}

/// The `i`-th name of the dictionary of well-known cookies, with the
/// description that is shown for it, in the order the dictionary lists them.
pub open spec fn well_known_cookie(i: int) -> (Seq<char>, Seq<char>) {
    if i == 0 {
        ("NID"@, "Google: unique browser/user ID for ads & preferences"@)
    } else if i == 1 {
        ("SID"@, "Google: account session authentication"@)
    } else if i == 2 {
        ("HSID"@, "Google: account session authentication"@)
    } else if i == 3 {
        ("SSID"@, "Google: account session authentication"@)
    } else if i == 4 {
        ("APISID"@, "Google: API session identifier"@)
    } else if i == 5 {
        ("SAPISID"@, "Google: API session identifier"@)
    } else if i == 6 {
        ("1P_JAR"@, "Google: ad targeting & conversion tracking"@)
    } else if i == 7 {
        ("CONSENT"@, "Google: cookie consent state"@)
    } else if i == 8 {
        ("OGPC"@, "Google: Google+ session preferences"@)
    } else if i == 9 {
        ("OGP"@, "Google: Google+ session preferences"@)
    } else if i == 10 {
        ("AEC"@, "Google: fraud prevention & ad integrity"@)
    } else if i == 11 {
        ("SOCS"@, "Google: cookie consent / NID opt-out flag"@)
    } else if i == 12 {
        ("__gsas"@, "Google: AdSense ad personalisation"@)
    } else if i == 13 {
        ("DV"@, "Google: rate-limiting & regional preferences"@)
    } else if i == 14 {
        ("SEARCH_SAMESITE"@, "Google: SameSite cross-site tracking guard"@)
    } else if i == 15 {
        ("ANID"@, "Google: advertising cookie for non-Google sites"@)
    } else if i == 16 {
        ("_ga"@, "Google Analytics: unique visitor identifier"@)
    } else if i == 17 {
        ("_gid"@, "Google Analytics: 24h visitor identifier"@)
    } else if i == 18 {
        ("_gat"@, "Google Analytics: request throttle flag"@)
    } else if i == 19 {
        ("_gcl_au"@, "Google Ads: conversion linker click ID"@)
    } else if i == 20 {
        ("__gads"@, "Google Ads: ad-serving & frequency capping"@)
    } else if i == 21 {
        ("_fbp"@, "Meta Pixel: browser-level user identifier"@)
    } else if i == 22 {
        ("_fbc"@, "Meta Pixel: click identifier from ad click"@)
    } else if i == 23 {
        ("fr"@, "Facebook: ad delivery & measurement"@)
    } else if i == 24 {
        ("sb"@, "Facebook: browser identification for security"@)
    } else if i == 25 {
        ("datr"@, "Facebook: browser integrity / spam prevention"@)
    } else if i == 26 {
        ("xs"@, "Facebook: session ID tied to account"@)
    } else if i == 27 {
        ("c_user"@, "Facebook: logged-in user ID"@)
    } else if i == 28 {
        ("MUID"@, "Microsoft: unique machine/user identifier"@)
    } else if i == 29 {
        ("ANON"@, "Microsoft: anonymous user preferences"@)
    } else if i == 30 {
        ("NAP"@, "Microsoft: authentication profile token"@)
    } else if i == 31 {
        ("MSFPC"@, "Microsoft: first-party analytics identifier"@)
    } else if i == 32 {
        ("MC1"@, "Microsoft: first-party analytics identifier"@)
    } else if i == 33 {
        ("AI_sentBuffer"@, "Azure Application Insights: telemetry buffer"@)
    } else if i == 34 {
        ("__cf_bm"@, "Cloudflare: bot-management challenge token"@)
    } else if i == 35 {
        ("cf_clearance"@, "Cloudflare: visitor passed JS/CAPTCHA challenge"@)
    } else if i == 36 {
        ("__cfruid"@, "Cloudflare: rate-limiting session identifier"@)
    } else if i == 37 {
        ("__cfduid"@, "Cloudflare (legacy): client identification"@)
    } else if i == 38 {
        ("__hstc"@, "HubSpot: main visitor tracking cookie"@)
    } else if i == 39 {
        ("hubspotutk"@, "HubSpot: visitor identity for form submissions"@)
    } else if i == 40 {
        ("__hssc"@, "HubSpot: session-level page view counter"@)
    } else if i == 41 {
        ("__hssrc"@, "HubSpot: session reset detection flag"@)
    } else if i == 42 {
        ("bcookie"@, "LinkedIn: browser identifier for security"@)
    } else if i == 43 {
        ("li_sugr"@, "LinkedIn: cross-domain visitor identifier"@)
    } else if i == 44 {
        ("lidc"@, "LinkedIn: data-center routing cookie"@)
    } else if i == 45 {
        ("li_at"@, "LinkedIn: member authentication token"@)
    } else if i == 46 {
        ("UserMatchHistory"@, "LinkedIn: ad sync / audience matching"@)
    } else if i == 47 {
        ("AnalyticsSyncHistory"@, "LinkedIn: analytics partner sync"@)
    } else if i == 48 {
        ("lang"@, "LinkedIn: UI language preference"@)
    } else if i == 49 {
        ("_ttp"@, "TikTok Pixel: visitor attribution identifier"@)
    } else if i == 50 {
        ("ttwid"@, "TikTok: unique session/user identifier"@)
    } else if i == 51 {
        ("tt_csrf_token"@, "TikTok: CSRF protection token"@)
    } else if i == 52 {
        ("msToken"@, "TikTok: anti-bot verification token"@)
    } else if i == 53 {
        ("_pinterest_sess"@, "Pinterest: session authentication token"@)
    } else if i == 54 {
        ("_pin_unauth"@, "Pinterest: anonymous / first-party identifier"@)
    } else if i == 55 {
        ("_routing_id"@, "Pinterest: server routing / load-balancing"@)
    } else if i == 56 {
        ("_twitter_sess"@, "Twitter: session authentication token"@)
    } else if i == 57 {
        ("ct0"@, "Twitter: CSRF / authenticity token"@)
    } else if i == 58 {
        ("guest_id"@, "Twitter: logged-out visitor identifier"@)
    } else if i == 59 {
        ("personalization_id"@, "Twitter: personalisation / ad tracking"@)
    } else if i == 60 {
        ("PLAY_SESSION"@, "Workday: Play Framework session token"@)
    } else if i == 61 {
        ("wday_vps_cookie"@, "Workday: virtual-proxy server routing"@)
    } else if i == 62 {
        ("wd-browser-id"@, "Workday: browser fingerprint for session"@)
    } else if i == 63 {
        ("glide_user_route"@, "ServiceNow: node affinity / routing"@)
    } else if i == 64 {
        ("glide_session_store"@, "ServiceNow: server-side session ID"@)
    } else if i == 65 {
        ("sap-usercontext"@, "SAP: user locale & client context"@)
    } else if i == 66 {
        ("MYSAPSSO2"@, "SAP: Single Sign-On v2 ticket"@)
    } else if i == 67 {
        ("BrowserId"@, "Salesforce: browser-level tracking identifier"@)
    } else if i == 68 {
        ("CookieConsentPolicy"@, "Salesforce: consent categories accepted"@)
    } else if i == 69 {
        ("sid"@, "Salesforce: session authentication ID"@)
    } else if i == 70 {
        ("oid"@, "Salesforce: organization / tenant ID"@)
    } else if i == 71 {
        ("inst"@, "Salesforce: instance routing identifier"@)
    } else if i == 72 {
        ("cloud.session.token"@, "Atlassian Cloud: session authentication"@)
    } else if i == 73 {
        ("atlassian.xsrf.token"@, "Atlassian: CSRF protection token"@)
    } else if i == 74 {
        ("tenant.session.token"@, "Atlassian: multi-tenant session binding"@)
    } else if i == 75 {
        ("_zendesk_cookie"@, "Zendesk: general tracking identifier"@)
    } else if i == 76 {
        ("_zendesk_session"@, "Zendesk: support session token"@)
    } else if i == 77 {
        ("_zendesk_shared_session"@, "Zendesk: cross-subdomain session"@)
    } else if i == 78 {
        ("AWSALB"@, "AWS ALB: sticky session for load balancer"@)
    } else if i == 79 {
        ("AWSALBCORS"@, "AWS ALB: CORS-aware sticky session"@)
    } else if i == 80 {
        ("aws-waf-token"@, "AWS WAF: bot-protection verification token"@)
    } else if i == 81 {
        ("__stripe_mid"@, "Stripe: merchant-level fraud-prevention ID"@)
    } else if i == 82 {
        ("__stripe_sid"@, "Stripe: session-level fraud-prevention ID"@)
    } else if i == 83 {
        ("ajs_user_id"@, "Segment: identified user analytics ID"@)
    } else if i == 84 {
        ("ajs_anonymous_id"@, "Segment: anonymous visitor analytics ID"@)
    } else if i == 85 {
        ("optimizelyEndUserId"@, "Optimizely: A/B test user identifier"@)
    } else if i == 86 {
        ("_dd_s"@, "Datadog RUM: browser session tracking"@)
    } else if i == 87 {
        ("csrftoken"@, "CSRF: cross-site request forgery protection token"@)
    } else if i == 88 {
        ("PHPSESSID"@, "PHP: server-side session identifier"@)
    } else if i == 89 {
        ("JSESSIONID"@, "Java Servlet: server-side session identifier"@)
    } else if i == 90 {
        ("ASP.NET_SessionId"@, "ASP.NET: server-side session identifier"@)
    } else if i == 91 {
        ("connect.sid"@, "Node.js Express: session identifier"@)
    } else if i == 92 {
        ("rack.session"@, "Ruby Rack: server-side session identifier"@)
    } else if i == 93 {
        ("laravel_session"@, "Laravel: encrypted session identifier"@)
    } else if i == 94 {
        ("_csrf"@, "CSRF: cross-site request forgery token"@)
    } else if i == 95 {
        ("XSRF-TOKEN"@, "CSRF: cross-site request forgery token"@)
    } else {
        (Seq::empty(), Seq::empty())
    }
}

/// The dictionary finds the names 0 to 11 of the list.
proof fn lemma_well_known_0_to_11(i: int)
    requires
        0 <= i < 12,
    ensures
        known_description(well_known_cookie(i).0) == Some(well_known_cookie(i).1),
{
    reveal_strlit("NID");
    reveal_strlit("SID");
    reveal_strlit("HSID");
    reveal_strlit("SSID");
    reveal_strlit("APISID");
    reveal_strlit("SAPISID");
    reveal_strlit("1P_JAR");
    reveal_strlit("CONSENT");
    reveal_strlit("OGPC");
    reveal_strlit("OGP");
    reveal_strlit("AEC");
    reveal_strlit("SOCS");
    reveal_strlit("Google: unique browser/user ID for ads & preferences");
    reveal_strlit("Google: account session authentication");
    reveal_strlit("Google: account session authentication");
    reveal_strlit("Google: account session authentication");
    reveal_strlit("Google: API session identifier");
    reveal_strlit("Google: API session identifier");
    reveal_strlit("Google: ad targeting & conversion tracking");
    reveal_strlit("Google: cookie consent state");
    reveal_strlit("Google: Google+ session preferences");
    reveal_strlit("Google: Google+ session preferences");
    reveal_strlit("Google: fraud prevention & ad integrity");
    reveal_strlit("Google: cookie consent / NID opt-out flag");
    if i == 0 {
        assert(known_description("NID"@) == Some("Google: unique browser/user ID for ads & preferences"@));
    } else if i == 1 {
        assert("SID"@[0] != "NID"@[0]);
        assert(known_description("SID"@) == Some("Google: account session authentication"@));
    } else if i == 2 {
        assert(known_description("HSID"@) == Some("Google: account session authentication"@));
    } else if i == 3 {
        assert(known_description("SSID"@) == Some("Google: account session authentication"@));
    } else if i == 4 {
        assert(known_description("APISID"@) == Some("Google: API session identifier"@));
    } else if i == 5 {
        assert(known_description("SAPISID"@) == Some("Google: API session identifier"@));
    } else if i == 6 {
        assert("1P_JAR"@[0] != "APISID"@[0]);
        assert(known_description("1P_JAR"@) == Some("Google: ad targeting & conversion tracking"@));
    } else if i == 7 {
        assert("CONSENT"@[0] != "SAPISID"@[0]);
        assert(known_description("CONSENT"@) == Some("Google: cookie consent state"@));
    } else if i == 8 {
        assert("OGPC"@[0] != "HSID"@[0]);
        assert("OGPC"@[0] != "SSID"@[0]);
        assert(known_description("OGPC"@) == Some("Google: Google+ session preferences"@));
    } else if i == 9 {
        assert("OGP"@[0] != "NID"@[0]);
        assert("OGP"@[0] != "SID"@[0]);
        assert(known_description("OGP"@) == Some("Google: Google+ session preferences"@));
    } else if i == 10 {
        assert("AEC"@[0] != "NID"@[0]);
        assert("AEC"@[0] != "SID"@[0]);
        assert("AEC"@[0] != "OGP"@[0]);
        assert(known_description("AEC"@) == Some("Google: fraud prevention & ad integrity"@));
    } else if i == 11 {
        assert("SOCS"@[0] != "HSID"@[0]);
        assert("SOCS"@[1] != "SSID"@[1]);
        assert("SOCS"@[0] != "OGPC"@[0]);
        assert(known_description("SOCS"@) == Some("Google: cookie consent / NID opt-out flag"@));
    }
}

/// The dictionary finds the names 12 to 23 of the list.
proof fn lemma_well_known_12_to_23(i: int)
    requires
        12 <= i < 24,
    ensures
        known_description(well_known_cookie(i).0) == Some(well_known_cookie(i).1),
{
    reveal_strlit("NID");
    reveal_strlit("SID");
    reveal_strlit("HSID");
    reveal_strlit("SSID");
    reveal_strlit("APISID");
    reveal_strlit("SAPISID");
    reveal_strlit("1P_JAR");
    reveal_strlit("CONSENT");
    reveal_strlit("OGPC");
    reveal_strlit("OGP");
    reveal_strlit("AEC");
    reveal_strlit("SOCS");
    reveal_strlit("__gsas");
    reveal_strlit("DV");
    reveal_strlit("SEARCH_SAMESITE");
    reveal_strlit("ANID");
    reveal_strlit("_ga");
    reveal_strlit("_gid");
    reveal_strlit("_gat");
    reveal_strlit("_gcl_au");
    reveal_strlit("__gads");
    reveal_strlit("_fbp");
    reveal_strlit("_fbc");
    reveal_strlit("fr");
    reveal_strlit("Google: AdSense ad personalisation");
    reveal_strlit("Google: rate-limiting & regional preferences");
    reveal_strlit("Google: SameSite cross-site tracking guard");
    reveal_strlit("Google: advertising cookie for non-Google sites");
    reveal_strlit("Google Analytics: unique visitor identifier");
    reveal_strlit("Google Analytics: 24h visitor identifier");
    reveal_strlit("Google Analytics: request throttle flag");
    reveal_strlit("Google Ads: conversion linker click ID");
    reveal_strlit("Google Ads: ad-serving & frequency capping");
    reveal_strlit("Meta Pixel: browser-level user identifier");
    reveal_strlit("Meta Pixel: click identifier from ad click");
    reveal_strlit("Facebook: ad delivery & measurement");
    if i == 12 {
        assert("__gsas"@[0] != "APISID"@[0]);
        assert("__gsas"@[0] != "1P_JAR"@[0]);
        assert(known_description("__gsas"@) == Some("Google: AdSense ad personalisation"@));
    } else if i == 13 {
        assert(known_description("DV"@) == Some("Google: rate-limiting & regional preferences"@));
    } else if i == 14 {
        assert(known_description("SEARCH_SAMESITE"@) == Some("Google: SameSite cross-site tracking guard"@));
    } else if i == 15 {
        assert("ANID"@[0] != "HSID"@[0]);
        assert("ANID"@[0] != "SSID"@[0]);
        assert("ANID"@[0] != "OGPC"@[0]);
        assert("ANID"@[0] != "SOCS"@[0]);
        assert(known_description("ANID"@) == Some("Google: advertising cookie for non-Google sites"@));
    } else if i == 16 {
        assert("_ga"@[0] != "NID"@[0]);
        assert("_ga"@[0] != "SID"@[0]);
        assert("_ga"@[0] != "OGP"@[0]);
        assert("_ga"@[0] != "AEC"@[0]);
        assert(known_description("_ga"@) == Some("Google Analytics: unique visitor identifier"@));
    } else if i == 17 {
        assert("_gid"@[0] != "HSID"@[0]);
        assert("_gid"@[0] != "SSID"@[0]);
        assert("_gid"@[0] != "OGPC"@[0]);
        assert("_gid"@[0] != "SOCS"@[0]);
        assert("_gid"@[0] != "ANID"@[0]);
        assert(known_description("_gid"@) == Some("Google Analytics: 24h visitor identifier"@));
    } else if i == 18 {
        assert("_gat"@[0] != "HSID"@[0]);
        assert("_gat"@[0] != "SSID"@[0]);
        assert("_gat"@[0] != "OGPC"@[0]);
        assert("_gat"@[0] != "SOCS"@[0]);
        assert("_gat"@[0] != "ANID"@[0]);
        assert("_gat"@[2] != "_gid"@[2]);
        assert(known_description("_gat"@) == Some("Google Analytics: request throttle flag"@));
    } else if i == 19 {
        assert("_gcl_au"@[0] != "SAPISID"@[0]);
        assert("_gcl_au"@[0] != "CONSENT"@[0]);
        assert(known_description("_gcl_au"@) == Some("Google Ads: conversion linker click ID"@));
    } else if i == 20 {
        assert("__gads"@[0] != "APISID"@[0]);
        assert("__gads"@[0] != "1P_JAR"@[0]);
        assert("__gads"@[3] != "__gsas"@[3]);
        assert(known_description("__gads"@) == Some("Google Ads: ad-serving & frequency capping"@));
    } else if i == 21 {
        assert("_fbp"@[0] != "HSID"@[0]);
        assert("_fbp"@[0] != "SSID"@[0]);
        assert("_fbp"@[0] != "OGPC"@[0]);
        assert("_fbp"@[0] != "SOCS"@[0]);
        assert("_fbp"@[0] != "ANID"@[0]);
        assert("_fbp"@[1] != "_gid"@[1]);
        assert("_fbp"@[1] != "_gat"@[1]);
        assert(known_description("_fbp"@) == Some("Meta Pixel: browser-level user identifier"@));
    } else if i == 22 {
        assert("_fbc"@[0] != "HSID"@[0]);
        assert("_fbc"@[0] != "SSID"@[0]);
        assert("_fbc"@[0] != "OGPC"@[0]);
        assert("_fbc"@[0] != "SOCS"@[0]);
        assert("_fbc"@[0] != "ANID"@[0]);
        assert("_fbc"@[1] != "_gid"@[1]);
        assert("_fbc"@[1] != "_gat"@[1]);
        assert("_fbc"@[3] != "_fbp"@[3]);
        assert(known_description("_fbc"@) == Some("Meta Pixel: click identifier from ad click"@));
    } else if i == 23 {
        assert("fr"@[0] != "DV"@[0]);
        assert(known_description("fr"@) == Some("Facebook: ad delivery & measurement"@));
    }
}

/// The dictionary finds the names 24 to 35 of the list.
proof fn lemma_well_known_24_to_35(i: int)
    requires
        24 <= i < 36,
    ensures
        known_description(well_known_cookie(i).0) == Some(well_known_cookie(i).1),
{
    reveal_strlit("NID");
    reveal_strlit("SID");
    reveal_strlit("HSID");
    reveal_strlit("SSID");
    reveal_strlit("APISID");
    reveal_strlit("SAPISID");
    reveal_strlit("1P_JAR");
    reveal_strlit("CONSENT");
    reveal_strlit("OGPC");
    reveal_strlit("OGP");
    reveal_strlit("AEC");
    reveal_strlit("SOCS");
    reveal_strlit("__gsas");
    reveal_strlit("DV");
    reveal_strlit("SEARCH_SAMESITE");
    reveal_strlit("ANID");
    reveal_strlit("_ga");
    reveal_strlit("_gid");
    reveal_strlit("_gat");
    reveal_strlit("_gcl_au");
    reveal_strlit("__gads");
    reveal_strlit("_fbp");
    reveal_strlit("_fbc");
    reveal_strlit("fr");
    reveal_strlit("sb");
    reveal_strlit("datr");
    reveal_strlit("xs");
    reveal_strlit("c_user");
    reveal_strlit("MUID");
    reveal_strlit("ANON");
    reveal_strlit("NAP");
    reveal_strlit("MSFPC");
    reveal_strlit("MC1");
    reveal_strlit("AI_sentBuffer");
    reveal_strlit("__cf_bm");
    reveal_strlit("cf_clearance");
    reveal_strlit("Facebook: browser identification for security");
    reveal_strlit("Facebook: browser integrity / spam prevention");
    reveal_strlit("Facebook: session ID tied to account");
    reveal_strlit("Facebook: logged-in user ID");
    reveal_strlit("Microsoft: unique machine/user identifier");
    reveal_strlit("Microsoft: anonymous user preferences");
    reveal_strlit("Microsoft: authentication profile token");
    reveal_strlit("Microsoft: first-party analytics identifier");
    reveal_strlit("Microsoft: first-party analytics identifier");
    reveal_strlit("Azure Application Insights: telemetry buffer");
    reveal_strlit("Cloudflare: bot-management challenge token");
    reveal_strlit("Cloudflare: visitor passed JS/CAPTCHA challenge");
    if i == 24 {
        assert("sb"@[0] != "DV"@[0]);
        assert("sb"@[0] != "fr"@[0]);
        assert(known_description("sb"@) == Some("Facebook: browser identification for security"@));
    } else if i == 25 {
        assert("datr"@[0] != "HSID"@[0]);
        assert("datr"@[0] != "SSID"@[0]);
        assert("datr"@[0] != "OGPC"@[0]);
        assert("datr"@[0] != "SOCS"@[0]);
        assert("datr"@[0] != "ANID"@[0]);
        assert("datr"@[0] != "_gid"@[0]);
        assert("datr"@[0] != "_gat"@[0]);
        assert("datr"@[0] != "_fbp"@[0]);
        assert("datr"@[0] != "_fbc"@[0]);
        assert(known_description("datr"@) == Some("Facebook: browser integrity / spam prevention"@));
    } else if i == 26 {
        assert("xs"@[0] != "DV"@[0]);
        assert("xs"@[0] != "fr"@[0]);
        assert("xs"@[0] != "sb"@[0]);
        assert(known_description("xs"@) == Some("Facebook: session ID tied to account"@));
    } else if i == 27 {
        assert("c_user"@[0] != "APISID"@[0]);
        assert("c_user"@[0] != "1P_JAR"@[0]);
        assert("c_user"@[0] != "__gsas"@[0]);
        assert("c_user"@[0] != "__gads"@[0]);
        assert(known_description("c_user"@) == Some("Facebook: logged-in user ID"@));
    } else if i == 28 {
        assert("MUID"@[0] != "HSID"@[0]);
        assert("MUID"@[0] != "SSID"@[0]);
        assert("MUID"@[0] != "OGPC"@[0]);
        assert("MUID"@[0] != "SOCS"@[0]);
        assert("MUID"@[0] != "ANID"@[0]);
        assert("MUID"@[0] != "_gid"@[0]);
        assert("MUID"@[0] != "_gat"@[0]);
        assert("MUID"@[0] != "_fbp"@[0]);
        assert("MUID"@[0] != "_fbc"@[0]);
        assert("MUID"@[0] != "datr"@[0]);
        assert(known_description("MUID"@) == Some("Microsoft: unique machine/user identifier"@));
    } else if i == 29 {
        assert("ANON"@[0] != "HSID"@[0]);
        assert("ANON"@[0] != "SSID"@[0]);
        assert("ANON"@[0] != "OGPC"@[0]);
        assert("ANON"@[0] != "SOCS"@[0]);
        assert("ANON"@[2] != "ANID"@[2]);
        assert("ANON"@[0] != "_gid"@[0]);
        assert("ANON"@[0] != "_gat"@[0]);
        assert("ANON"@[0] != "_fbp"@[0]);
        assert("ANON"@[0] != "_fbc"@[0]);
        assert("ANON"@[0] != "datr"@[0]);
        assert("ANON"@[0] != "MUID"@[0]);
        assert(known_description("ANON"@) == Some("Microsoft: anonymous user preferences"@));
    } else if i == 30 {
        assert("NAP"@[1] != "NID"@[1]);
        assert("NAP"@[0] != "SID"@[0]);
        assert("NAP"@[0] != "OGP"@[0]);
        assert("NAP"@[0] != "AEC"@[0]);
        assert("NAP"@[0] != "_ga"@[0]);
        assert(known_description("NAP"@) == Some("Microsoft: authentication profile token"@));
    } else if i == 31 {
        assert(known_description("MSFPC"@) == Some("Microsoft: first-party analytics identifier"@));
    } else if i == 32 {
        assert("MC1"@[0] != "NID"@[0]);
        assert("MC1"@[0] != "SID"@[0]);
        assert("MC1"@[0] != "OGP"@[0]);
        assert("MC1"@[0] != "AEC"@[0]);
        assert("MC1"@[0] != "_ga"@[0]);
        assert("MC1"@[0] != "NAP"@[0]);
        assert(known_description("MC1"@) == Some("Microsoft: first-party analytics identifier"@));
    } else if i == 33 {
        assert(known_description("AI_sentBuffer"@) == Some("Azure Application Insights: telemetry buffer"@));
    } else if i == 34 {
        assert("__cf_bm"@[0] != "SAPISID"@[0]);
        assert("__cf_bm"@[0] != "CONSENT"@[0]);
        assert("__cf_bm"@[1] != "_gcl_au"@[1]);
        assert(known_description("__cf_bm"@) == Some("Cloudflare: bot-management challenge token"@));
    } else if i == 35 {
        assert(known_description("cf_clearance"@) == Some("Cloudflare: visitor passed JS/CAPTCHA challenge"@));
    }
}

/// The dictionary finds the names 36 to 47 of the list.
proof fn lemma_well_known_36_to_47(i: int)
    requires
        36 <= i < 48,
    ensures
        known_description(well_known_cookie(i).0) == Some(well_known_cookie(i).1),
{
    reveal_strlit("NID");
    reveal_strlit("SID");
    reveal_strlit("HSID");
    reveal_strlit("SSID");
    reveal_strlit("APISID");
    reveal_strlit("SAPISID");
    reveal_strlit("1P_JAR");
    reveal_strlit("CONSENT");
    reveal_strlit("OGPC");
    reveal_strlit("OGP");
    reveal_strlit("AEC");
    reveal_strlit("SOCS");
    reveal_strlit("__gsas");
    reveal_strlit("DV");
    reveal_strlit("SEARCH_SAMESITE");
    reveal_strlit("ANID");
    reveal_strlit("_ga");
    reveal_strlit("_gid");
    reveal_strlit("_gat");
    reveal_strlit("_gcl_au");
    reveal_strlit("__gads");
    reveal_strlit("_fbp");
    reveal_strlit("_fbc");
    reveal_strlit("fr");
    reveal_strlit("sb");
    reveal_strlit("datr");
    reveal_strlit("xs");
    reveal_strlit("c_user");
    reveal_strlit("MUID");
    reveal_strlit("ANON");
    reveal_strlit("NAP");
    reveal_strlit("MSFPC");
    reveal_strlit("MC1");
    reveal_strlit("AI_sentBuffer");
    reveal_strlit("__cf_bm");
    reveal_strlit("cf_clearance");
    reveal_strlit("__cfruid");
    reveal_strlit("__cfduid");
    reveal_strlit("__hstc");
    reveal_strlit("hubspotutk");
    reveal_strlit("__hssc");
    reveal_strlit("__hssrc");
    reveal_strlit("bcookie");
    reveal_strlit("li_sugr");
    reveal_strlit("lidc");
    reveal_strlit("li_at");
    reveal_strlit("UserMatchHistory");
    reveal_strlit("AnalyticsSyncHistory");
    reveal_strlit("Cloudflare: rate-limiting session identifier");
    reveal_strlit("Cloudflare (legacy): client identification");
    reveal_strlit("HubSpot: main visitor tracking cookie");
    reveal_strlit("HubSpot: visitor identity for form submissions");
    reveal_strlit("HubSpot: session-level page view counter");
    reveal_strlit("HubSpot: session reset detection flag");
    reveal_strlit("LinkedIn: browser identifier for security");
    reveal_strlit("LinkedIn: cross-domain visitor identifier");
    reveal_strlit("LinkedIn: data-center routing cookie");
    reveal_strlit("LinkedIn: member authentication token");
    reveal_strlit("LinkedIn: ad sync / audience matching");
    reveal_strlit("LinkedIn: analytics partner sync");
    if i == 36 {
        assert(known_description("__cfruid"@) == Some("Cloudflare: rate-limiting session identifier"@));
    } else if i == 37 {
        assert("__cfduid"@[4] != "__cfruid"@[4]);
        assert(known_description("__cfduid"@) == Some("Cloudflare (legacy): client identification"@));
    } else if i == 38 {
        assert("__hstc"@[0] != "APISID"@[0]);
        assert("__hstc"@[0] != "1P_JAR"@[0]);
        assert("__hstc"@[2] != "__gsas"@[2]);
        assert("__hstc"@[2] != "__gads"@[2]);
        assert("__hstc"@[0] != "c_user"@[0]);
        assert(known_description("__hstc"@) == Some("HubSpot: main visitor tracking cookie"@));
    } else if i == 39 {
        assert(known_description("hubspotutk"@) == Some("HubSpot: visitor identity for form submissions"@));
    } else if i == 40 {
        assert("__hssc"@[0] != "APISID"@[0]);
        assert("__hssc"@[0] != "1P_JAR"@[0]);
        assert("__hssc"@[2] != "__gsas"@[2]);
        assert("__hssc"@[2] != "__gads"@[2]);
        assert("__hssc"@[0] != "c_user"@[0]);
        assert("__hssc"@[4] != "__hstc"@[4]);
        assert(known_description("__hssc"@) == Some("HubSpot: session-level page view counter"@));
    } else if i == 41 {
        assert("__hssrc"@[0] != "SAPISID"@[0]);
        assert("__hssrc"@[0] != "CONSENT"@[0]);
        assert("__hssrc"@[1] != "_gcl_au"@[1]);
        assert("__hssrc"@[2] != "__cf_bm"@[2]);
        assert(known_description("__hssrc"@) == Some("HubSpot: session reset detection flag"@));
    } else if i == 42 {
        assert("bcookie"@[0] != "SAPISID"@[0]);
        assert("bcookie"@[0] != "CONSENT"@[0]);
        assert("bcookie"@[0] != "_gcl_au"@[0]);
        assert("bcookie"@[0] != "__cf_bm"@[0]);
        assert("bcookie"@[0] != "__hssrc"@[0]);
        assert(known_description("bcookie"@) == Some("LinkedIn: browser identifier for security"@));
    } else if i == 43 {
        assert("li_sugr"@[0] != "SAPISID"@[0]);
        assert("li_sugr"@[0] != "CONSENT"@[0]);
        assert("li_sugr"@[0] != "_gcl_au"@[0]);
        assert("li_sugr"@[0] != "__cf_bm"@[0]);
        assert("li_sugr"@[0] != "__hssrc"@[0]);
        assert("li_sugr"@[0] != "bcookie"@[0]);
        assert(known_description("li_sugr"@) == Some("LinkedIn: cross-domain visitor identifier"@));
    } else if i == 44 {
        assert("lidc"@[0] != "HSID"@[0]);
        assert("lidc"@[0] != "SSID"@[0]);
        assert("lidc"@[0] != "OGPC"@[0]);
        assert("lidc"@[0] != "SOCS"@[0]);
        assert("lidc"@[0] != "ANID"@[0]);
        assert("lidc"@[0] != "_gid"@[0]);
        assert("lidc"@[0] != "_gat"@[0]);
        assert("lidc"@[0] != "_fbp"@[0]);
        assert("lidc"@[0] != "_fbc"@[0]);
        assert("lidc"@[0] != "datr"@[0]);
        assert("lidc"@[0] != "MUID"@[0]);
        assert("lidc"@[0] != "ANON"@[0]);
        assert(known_description("lidc"@) == Some("LinkedIn: data-center routing cookie"@));
    } else if i == 45 {
        assert("li_at"@[0] != "MSFPC"@[0]);
        assert(known_description("li_at"@) == Some("LinkedIn: member authentication token"@));
    } else if i == 46 {
        assert(known_description("UserMatchHistory"@) == Some("LinkedIn: ad sync / audience matching"@));
    } else if i == 47 {
        assert(known_description("AnalyticsSyncHistory"@) == Some("LinkedIn: analytics partner sync"@));
    }
}

/// The dictionary finds the names 48 to 59 of the list.
proof fn lemma_well_known_48_to_59(i: int)
    requires
        48 <= i < 60,
    ensures
        known_description(well_known_cookie(i).0) == Some(well_known_cookie(i).1),
{
    reveal_strlit("NID");
    reveal_strlit("SID");
    reveal_strlit("HSID");
    reveal_strlit("SSID");
    reveal_strlit("APISID");
    reveal_strlit("SAPISID");
    reveal_strlit("1P_JAR");
    reveal_strlit("CONSENT");
    reveal_strlit("OGPC");
    reveal_strlit("OGP");
    reveal_strlit("AEC");
    reveal_strlit("SOCS");
    reveal_strlit("__gsas");
    reveal_strlit("DV");
    reveal_strlit("SEARCH_SAMESITE");
    reveal_strlit("ANID");
    reveal_strlit("_ga");
    reveal_strlit("_gid");
    reveal_strlit("_gat");
    reveal_strlit("_gcl_au");
    reveal_strlit("__gads");
    reveal_strlit("_fbp");
    reveal_strlit("_fbc");
    reveal_strlit("fr");
    reveal_strlit("sb");
    reveal_strlit("datr");
    reveal_strlit("xs");
    reveal_strlit("c_user");
    reveal_strlit("MUID");
    reveal_strlit("ANON");
    reveal_strlit("NAP");
    reveal_strlit("MSFPC");
    reveal_strlit("MC1");
    reveal_strlit("AI_sentBuffer");
    reveal_strlit("__cf_bm");
    reveal_strlit("cf_clearance");
    reveal_strlit("__cfruid");
    reveal_strlit("__cfduid");
    reveal_strlit("__hstc");
    reveal_strlit("hubspotutk");
    reveal_strlit("__hssc");
    reveal_strlit("__hssrc");
    reveal_strlit("bcookie");
    reveal_strlit("li_sugr");
    reveal_strlit("lidc");
    reveal_strlit("li_at");
    reveal_strlit("UserMatchHistory");
    reveal_strlit("AnalyticsSyncHistory");
    reveal_strlit("lang");
    reveal_strlit("_ttp");
    reveal_strlit("ttwid");
    reveal_strlit("tt_csrf_token");
    reveal_strlit("msToken");
    reveal_strlit("_pinterest_sess");
    reveal_strlit("_pin_unauth");
    reveal_strlit("_routing_id");
    reveal_strlit("_twitter_sess");
    reveal_strlit("ct0");
    reveal_strlit("guest_id");
    reveal_strlit("personalization_id");
    reveal_strlit("LinkedIn: UI language preference");
    reveal_strlit("TikTok Pixel: visitor attribution identifier");
    reveal_strlit("TikTok: unique session/user identifier");
    reveal_strlit("TikTok: CSRF protection token");
    reveal_strlit("TikTok: anti-bot verification token");
    reveal_strlit("Pinterest: session authentication token");
    reveal_strlit("Pinterest: anonymous / first-party identifier");
    reveal_strlit("Pinterest: server routing / load-balancing");
    reveal_strlit("Twitter: session authentication token");
    reveal_strlit("Twitter: CSRF / authenticity token");
    reveal_strlit("Twitter: logged-out visitor identifier");
    reveal_strlit("Twitter: personalisation / ad tracking");
    if i == 48 {
        assert("lang"@[0] != "HSID"@[0]);
        assert("lang"@[0] != "SSID"@[0]);
        assert("lang"@[0] != "OGPC"@[0]);
        assert("lang"@[0] != "SOCS"@[0]);
        assert("lang"@[0] != "ANID"@[0]);
        assert("lang"@[0] != "_gid"@[0]);
        assert("lang"@[0] != "_gat"@[0]);
        assert("lang"@[0] != "_fbp"@[0]);
        assert("lang"@[0] != "_fbc"@[0]);
        assert("lang"@[0] != "datr"@[0]);
        assert("lang"@[0] != "MUID"@[0]);
        assert("lang"@[0] != "ANON"@[0]);
        assert("lang"@[1] != "lidc"@[1]);
        assert(known_description("lang"@) == Some("LinkedIn: UI language preference"@));
    } else if i == 49 {
        assert("_ttp"@[0] != "HSID"@[0]);
        assert("_ttp"@[0] != "SSID"@[0]);
        assert("_ttp"@[0] != "OGPC"@[0]);
        assert("_ttp"@[0] != "SOCS"@[0]);
        assert("_ttp"@[0] != "ANID"@[0]);
        assert("_ttp"@[1] != "_gid"@[1]);
        assert("_ttp"@[1] != "_gat"@[1]);
        assert("_ttp"@[1] != "_fbp"@[1]);
        assert("_ttp"@[1] != "_fbc"@[1]);
        assert("_ttp"@[0] != "datr"@[0]);
        assert("_ttp"@[0] != "MUID"@[0]);
        assert("_ttp"@[0] != "ANON"@[0]);
        assert("_ttp"@[0] != "lidc"@[0]);
        assert("_ttp"@[0] != "lang"@[0]);
        assert(known_description("_ttp"@) == Some("TikTok Pixel: visitor attribution identifier"@));
    } else if i == 50 {
        assert("ttwid"@[0] != "MSFPC"@[0]);
        assert("ttwid"@[0] != "li_at"@[0]);
        assert(known_description("ttwid"@) == Some("TikTok: unique session/user identifier"@));
    } else if i == 51 {
        assert("tt_csrf_token"@[0] != "AI_sentBuffer"@[0]);
        assert(known_description("tt_csrf_token"@) == Some("TikTok: CSRF protection token"@));
    } else if i == 52 {
        assert("msToken"@[0] != "SAPISID"@[0]);
        assert("msToken"@[0] != "CONSENT"@[0]);
        assert("msToken"@[0] != "_gcl_au"@[0]);
        assert("msToken"@[0] != "__cf_bm"@[0]);
        assert("msToken"@[0] != "__hssrc"@[0]);
        assert("msToken"@[0] != "bcookie"@[0]);
        assert("msToken"@[0] != "li_sugr"@[0]);
        assert(known_description("msToken"@) == Some("TikTok: anti-bot verification token"@));
    } else if i == 53 {
        assert("_pinterest_sess"@[0] != "SEARCH_SAMESITE"@[0]);
        assert(known_description("_pinterest_sess"@) == Some("Pinterest: session authentication token"@));
    } else if i == 54 {
        assert(known_description("_pin_unauth"@) == Some("Pinterest: anonymous / first-party identifier"@));
    } else if i == 55 {
        assert("_routing_id"@[1] != "_pin_unauth"@[1]);
        assert(known_description("_routing_id"@) == Some("Pinterest: server routing / load-balancing"@));
    } else if i == 56 {
        assert("_twitter_sess"@[0] != "AI_sentBuffer"@[0]);
        assert("_twitter_sess"@[0] != "tt_csrf_token"@[0]);
        assert(known_description("_twitter_sess"@) == Some("Twitter: session authentication token"@));
    } else if i == 57 {
        assert("ct0"@[0] != "NID"@[0]);
        assert("ct0"@[0] != "SID"@[0]);
        assert("ct0"@[0] != "OGP"@[0]);
        assert("ct0"@[0] != "AEC"@[0]);
        assert("ct0"@[0] != "_ga"@[0]);
        assert("ct0"@[0] != "NAP"@[0]);
        assert("ct0"@[0] != "MC1"@[0]);
        assert(known_description("ct0"@) == Some("Twitter: CSRF / authenticity token"@));
    } else if i == 58 {
        assert("guest_id"@[0] != "__cfruid"@[0]);
        assert("guest_id"@[0] != "__cfduid"@[0]);
        assert(known_description("guest_id"@) == Some("Twitter: logged-out visitor identifier"@));
    } else if i == 59 {
        assert(known_description("personalization_id"@) == Some("Twitter: personalisation / ad tracking"@));
    }
}

/// The dictionary finds the names 60 to 71 of the list.
proof fn lemma_well_known_60_to_71(i: int)
    requires
        60 <= i < 72,
    ensures
        known_description(well_known_cookie(i).0) == Some(well_known_cookie(i).1),
{
    reveal_strlit("NID");
    reveal_strlit("SID");
    reveal_strlit("HSID");
    reveal_strlit("SSID");
    reveal_strlit("APISID");
    reveal_strlit("SAPISID");
    reveal_strlit("1P_JAR");
    reveal_strlit("CONSENT");
    reveal_strlit("OGPC");
    reveal_strlit("OGP");
    reveal_strlit("AEC");
    reveal_strlit("SOCS");
    reveal_strlit("__gsas");
    reveal_strlit("DV");
    reveal_strlit("SEARCH_SAMESITE");
    reveal_strlit("ANID");
    reveal_strlit("_ga");
    reveal_strlit("_gid");
    reveal_strlit("_gat");
    reveal_strlit("_gcl_au");
    reveal_strlit("__gads");
    reveal_strlit("_fbp");
    reveal_strlit("_fbc");
    reveal_strlit("fr");
    reveal_strlit("sb");
    reveal_strlit("datr");
    reveal_strlit("xs");
    reveal_strlit("c_user");
    reveal_strlit("MUID");
    reveal_strlit("ANON");
    reveal_strlit("NAP");
    reveal_strlit("MSFPC");
    reveal_strlit("MC1");
    reveal_strlit("AI_sentBuffer");
    reveal_strlit("__cf_bm");
    reveal_strlit("cf_clearance");
    reveal_strlit("__cfruid");
    reveal_strlit("__cfduid");
    reveal_strlit("__hstc");
    reveal_strlit("hubspotutk");
    reveal_strlit("__hssc");
    reveal_strlit("__hssrc");
    reveal_strlit("bcookie");
    reveal_strlit("li_sugr");
    reveal_strlit("lidc");
    reveal_strlit("li_at");
    reveal_strlit("UserMatchHistory");
    reveal_strlit("AnalyticsSyncHistory");
    reveal_strlit("lang");
    reveal_strlit("_ttp");
    reveal_strlit("ttwid");
    reveal_strlit("tt_csrf_token");
    reveal_strlit("msToken");
    reveal_strlit("_pinterest_sess");
    reveal_strlit("_pin_unauth");
    reveal_strlit("_routing_id");
    reveal_strlit("_twitter_sess");
    reveal_strlit("ct0");
    reveal_strlit("guest_id");
    reveal_strlit("personalization_id");
    reveal_strlit("PLAY_SESSION");
    reveal_strlit("wday_vps_cookie");
    reveal_strlit("wd-browser-id");
    reveal_strlit("glide_user_route");
    reveal_strlit("glide_session_store");
    reveal_strlit("sap-usercontext");
    reveal_strlit("MYSAPSSO2");
    reveal_strlit("BrowserId");
    reveal_strlit("CookieConsentPolicy");
    reveal_strlit("sid");
    reveal_strlit("oid");
    reveal_strlit("inst");
    reveal_strlit("Workday: Play Framework session token");
    reveal_strlit("Workday: virtual-proxy server routing");
    reveal_strlit("Workday: browser fingerprint for session");
    reveal_strlit("ServiceNow: node affinity / routing");
    reveal_strlit("ServiceNow: server-side session ID");
    reveal_strlit("SAP: user locale & client context");
    reveal_strlit("SAP: Single Sign-On v2 ticket");
    reveal_strlit("Salesforce: browser-level tracking identifier");
    reveal_strlit("Salesforce: consent categories accepted");
    reveal_strlit("Salesforce: session authentication ID");
    reveal_strlit("Salesforce: organization / tenant ID");
    reveal_strlit("Salesforce: instance routing identifier");
    if i == 60 {
        assert("PLAY_SESSION"@[0] != "cf_clearance"@[0]);
        assert(known_description("PLAY_SESSION"@) == Some("Workday: Play Framework session token"@));
    } else if i == 61 {
        assert("wday_vps_cookie"@[0] != "SEARCH_SAMESITE"@[0]);
        assert("wday_vps_cookie"@[0] != "_pinterest_sess"@[0]);
        assert(known_description("wday_vps_cookie"@) == Some("Workday: virtual-proxy server routing"@));
    } else if i == 62 {
        assert("wd-browser-id"@[0] != "AI_sentBuffer"@[0]);
        assert("wd-browser-id"@[0] != "tt_csrf_token"@[0]);
        assert("wd-browser-id"@[0] != "_twitter_sess"@[0]);
        assert(known_description("wd-browser-id"@) == Some("Workday: browser fingerprint for session"@));
    } else if i == 63 {
        assert("glide_user_route"@[0] != "UserMatchHistory"@[0]);
        assert(known_description("glide_user_route"@) == Some("ServiceNow: node affinity / routing"@));
    } else if i == 64 {
        assert(known_description("glide_session_store"@) == Some("ServiceNow: server-side session ID"@));
    } else if i == 65 {
        assert("sap-usercontext"@[0] != "SEARCH_SAMESITE"@[0]);
        assert("sap-usercontext"@[0] != "_pinterest_sess"@[0]);
        assert("sap-usercontext"@[0] != "wday_vps_cookie"@[0]);
        assert(known_description("sap-usercontext"@) == Some("SAP: user locale & client context"@));
    } else if i == 66 {
        assert(known_description("MYSAPSSO2"@) == Some("SAP: Single Sign-On v2 ticket"@));
    } else if i == 67 {
        assert("BrowserId"@[0] != "MYSAPSSO2"@[0]);
        assert(known_description("BrowserId"@) == Some("Salesforce: browser-level tracking identifier"@));
    } else if i == 68 {
        assert("CookieConsentPolicy"@[0] != "glide_session_store"@[0]);
        assert(known_description("CookieConsentPolicy"@) == Some("Salesforce: consent categories accepted"@));
    } else if i == 69 {
        assert("sid"@[0] != "NID"@[0]);
        assert("sid"@[0] != "SID"@[0]);
        assert("sid"@[0] != "OGP"@[0]);
        assert("sid"@[0] != "AEC"@[0]);
        assert("sid"@[0] != "_ga"@[0]);
        assert("sid"@[0] != "NAP"@[0]);
        assert("sid"@[0] != "MC1"@[0]);
        assert("sid"@[0] != "ct0"@[0]);
        assert(known_description("sid"@) == Some("Salesforce: session authentication ID"@));
    } else if i == 70 {
        assert("oid"@[0] != "NID"@[0]);
        assert("oid"@[0] != "SID"@[0]);
        assert("oid"@[0] != "OGP"@[0]);
        assert("oid"@[0] != "AEC"@[0]);
        assert("oid"@[0] != "_ga"@[0]);
        assert("oid"@[0] != "NAP"@[0]);
        assert("oid"@[0] != "MC1"@[0]);
        assert("oid"@[0] != "ct0"@[0]);
        assert("oid"@[0] != "sid"@[0]);
        assert(known_description("oid"@) == Some("Salesforce: organization / tenant ID"@));
    } else if i == 71 {
        assert("inst"@[0] != "HSID"@[0]);
        assert("inst"@[0] != "SSID"@[0]);
        assert("inst"@[0] != "OGPC"@[0]);
        assert("inst"@[0] != "SOCS"@[0]);
        assert("inst"@[0] != "ANID"@[0]);
        assert("inst"@[0] != "_gid"@[0]);
        assert("inst"@[0] != "_gat"@[0]);
        assert("inst"@[0] != "_fbp"@[0]);
        assert("inst"@[0] != "_fbc"@[0]);
        assert("inst"@[0] != "datr"@[0]);
        assert("inst"@[0] != "MUID"@[0]);
        assert("inst"@[0] != "ANON"@[0]);
        assert("inst"@[0] != "lidc"@[0]);
        assert("inst"@[0] != "lang"@[0]);
        assert("inst"@[0] != "_ttp"@[0]);
        assert(known_description("inst"@) == Some("Salesforce: instance routing identifier"@));
    }
}

/// The dictionary finds the names 72 to 83 of the list.
proof fn lemma_well_known_72_to_83(i: int)
    requires
        72 <= i < 84,
    ensures
        known_description(well_known_cookie(i).0) == Some(well_known_cookie(i).1),
{
    reveal_strlit("NID");
    reveal_strlit("SID");
    reveal_strlit("HSID");
    reveal_strlit("SSID");
    reveal_strlit("APISID");
    reveal_strlit("SAPISID");
    reveal_strlit("1P_JAR");
    reveal_strlit("CONSENT");
    reveal_strlit("OGPC");
    reveal_strlit("OGP");
    reveal_strlit("AEC");
    reveal_strlit("SOCS");
    reveal_strlit("__gsas");
    reveal_strlit("DV");
    reveal_strlit("SEARCH_SAMESITE");
    reveal_strlit("ANID");
    reveal_strlit("_ga");
    reveal_strlit("_gid");
    reveal_strlit("_gat");
    reveal_strlit("_gcl_au");
    reveal_strlit("__gads");
    reveal_strlit("_fbp");
    reveal_strlit("_fbc");
    reveal_strlit("fr");
    reveal_strlit("sb");
    reveal_strlit("datr");
    reveal_strlit("xs");
    reveal_strlit("c_user");
    reveal_strlit("MUID");
    reveal_strlit("ANON");
    reveal_strlit("NAP");
    reveal_strlit("MSFPC");
    reveal_strlit("MC1");
    reveal_strlit("AI_sentBuffer");
    reveal_strlit("__cf_bm");
    reveal_strlit("cf_clearance");
    reveal_strlit("__cfruid");
    reveal_strlit("__cfduid");
    reveal_strlit("__hstc");
    reveal_strlit("hubspotutk");
    reveal_strlit("__hssc");
    reveal_strlit("__hssrc");
    reveal_strlit("bcookie");
    reveal_strlit("li_sugr");
    reveal_strlit("lidc");
    reveal_strlit("li_at");
    reveal_strlit("UserMatchHistory");
    reveal_strlit("AnalyticsSyncHistory");
    reveal_strlit("lang");
    reveal_strlit("_ttp");
    reveal_strlit("ttwid");
    reveal_strlit("tt_csrf_token");
    reveal_strlit("msToken");
    reveal_strlit("_pinterest_sess");
    reveal_strlit("_pin_unauth");
    reveal_strlit("_routing_id");
    reveal_strlit("_twitter_sess");
    reveal_strlit("ct0");
    reveal_strlit("guest_id");
    reveal_strlit("personalization_id");
    reveal_strlit("PLAY_SESSION");
    reveal_strlit("wday_vps_cookie");
    reveal_strlit("wd-browser-id");
    reveal_strlit("glide_user_route");
    reveal_strlit("glide_session_store");
    reveal_strlit("sap-usercontext");
    reveal_strlit("MYSAPSSO2");
    reveal_strlit("BrowserId");
    reveal_strlit("CookieConsentPolicy");
    reveal_strlit("sid");
    reveal_strlit("oid");
    reveal_strlit("inst");
    reveal_strlit("cloud.session.token");
    reveal_strlit("atlassian.xsrf.token");
    reveal_strlit("tenant.session.token");
    reveal_strlit("_zendesk_cookie");
    reveal_strlit("_zendesk_session");
    reveal_strlit("_zendesk_shared_session");
    reveal_strlit("AWSALB");
    reveal_strlit("AWSALBCORS");
    reveal_strlit("aws-waf-token");
    reveal_strlit("__stripe_mid");
    reveal_strlit("__stripe_sid");
    reveal_strlit("ajs_user_id");
    reveal_strlit("Atlassian Cloud: session authentication");
    reveal_strlit("Atlassian: CSRF protection token");
    reveal_strlit("Atlassian: multi-tenant session binding");
    reveal_strlit("Zendesk: general tracking identifier");
    reveal_strlit("Zendesk: support session token");
    reveal_strlit("Zendesk: cross-subdomain session");
    reveal_strlit("AWS ALB: sticky session for load balancer");
    reveal_strlit("AWS ALB: CORS-aware sticky session");
    reveal_strlit("AWS WAF: bot-protection verification token");
    reveal_strlit("Stripe: merchant-level fraud-prevention ID");
    reveal_strlit("Stripe: session-level fraud-prevention ID");
    reveal_strlit("Segment: identified user analytics ID");
    if i == 72 {
        assert("cloud.session.token"@[0] != "glide_session_store"@[0]);
        assert("cloud.session.token"@[0] != "CookieConsentPolicy"@[0]);
        assert(known_description("cloud.session.token"@) == Some("Atlassian Cloud: session authentication"@));
    } else if i == 73 {
        assert("atlassian.xsrf.token"@[0] != "AnalyticsSyncHistory"@[0]);
        assert(known_description("atlassian.xsrf.token"@) == Some("Atlassian: CSRF protection token"@));
    } else if i == 74 {
        assert("tenant.session.token"@[0] != "AnalyticsSyncHistory"@[0]);
        assert("tenant.session.token"@[0] != "atlassian.xsrf.token"@[0]);
        assert(known_description("tenant.session.token"@) == Some("Atlassian: multi-tenant session binding"@));
    } else if i == 75 {
        assert("_zendesk_cookie"@[0] != "SEARCH_SAMESITE"@[0]);
        assert("_zendesk_cookie"@[1] != "_pinterest_sess"@[1]);
        assert("_zendesk_cookie"@[0] != "wday_vps_cookie"@[0]);
        assert("_zendesk_cookie"@[0] != "sap-usercontext"@[0]);
        assert(known_description("_zendesk_cookie"@) == Some("Zendesk: general tracking identifier"@));
    } else if i == 76 {
        assert("_zendesk_session"@[0] != "UserMatchHistory"@[0]);
        assert("_zendesk_session"@[0] != "glide_user_route"@[0]);
        assert(known_description("_zendesk_session"@) == Some("Zendesk: support session token"@));
    } else if i == 77 {
        assert(known_description("_zendesk_shared_session"@) == Some("Zendesk: cross-subdomain session"@));
    } else if i == 78 {
        assert("AWSALB"@[1] != "APISID"@[1]);
        assert("AWSALB"@[0] != "1P_JAR"@[0]);
        assert("AWSALB"@[0] != "__gsas"@[0]);
        assert("AWSALB"@[0] != "__gads"@[0]);
        assert("AWSALB"@[0] != "c_user"@[0]);
        assert("AWSALB"@[0] != "__hstc"@[0]);
        assert("AWSALB"@[0] != "__hssc"@[0]);
        assert(known_description("AWSALB"@) == Some("AWS ALB: sticky session for load balancer"@));
    } else if i == 79 {
        assert("AWSALBCORS"@[0] != "hubspotutk"@[0]);
        assert(known_description("AWSALBCORS"@) == Some("AWS ALB: CORS-aware sticky session"@));
    } else if i == 80 {
        assert("aws-waf-token"@[0] != "AI_sentBuffer"@[0]);
        assert("aws-waf-token"@[0] != "tt_csrf_token"@[0]);
        assert("aws-waf-token"@[0] != "_twitter_sess"@[0]);
        assert("aws-waf-token"@[0] != "wd-browser-id"@[0]);
        assert(known_description("aws-waf-token"@) == Some("AWS WAF: bot-protection verification token"@));
    } else if i == 81 {
        assert("__stripe_mid"@[0] != "cf_clearance"@[0]);
        assert("__stripe_mid"@[0] != "PLAY_SESSION"@[0]);
        assert(known_description("__stripe_mid"@) == Some("Stripe: merchant-level fraud-prevention ID"@));
    } else if i == 82 {
        assert("__stripe_sid"@[0] != "cf_clearance"@[0]);
        assert("__stripe_sid"@[0] != "PLAY_SESSION"@[0]);
        assert("__stripe_sid"@[9] != "__stripe_mid"@[9]);
        assert(known_description("__stripe_sid"@) == Some("Stripe: session-level fraud-prevention ID"@));
    } else if i == 83 {
        assert("ajs_user_id"@[0] != "_pin_unauth"@[0]);
        assert("ajs_user_id"@[0] != "_routing_id"@[0]);
        assert(known_description("ajs_user_id"@) == Some("Segment: identified user analytics ID"@));
    }
}

/// The dictionary finds the names 84 to 95 of the list.
proof fn lemma_well_known_84_to_95(i: int)
    requires
        84 <= i < 96,
    ensures
        known_description(well_known_cookie(i).0) == Some(well_known_cookie(i).1),
{
    reveal_strlit("NID");
    reveal_strlit("SID");
    reveal_strlit("HSID");
    reveal_strlit("SSID");
    reveal_strlit("APISID");
    reveal_strlit("SAPISID");
    reveal_strlit("1P_JAR");
    reveal_strlit("CONSENT");
    reveal_strlit("OGPC");
    reveal_strlit("OGP");
    reveal_strlit("AEC");
    reveal_strlit("SOCS");
    reveal_strlit("__gsas");
    reveal_strlit("DV");
    reveal_strlit("SEARCH_SAMESITE");
    reveal_strlit("ANID");
    reveal_strlit("_ga");
    reveal_strlit("_gid");
    reveal_strlit("_gat");
    reveal_strlit("_gcl_au");
    reveal_strlit("__gads");
    reveal_strlit("_fbp");
    reveal_strlit("_fbc");
    reveal_strlit("fr");
    reveal_strlit("sb");
    reveal_strlit("datr");
    reveal_strlit("xs");
    reveal_strlit("c_user");
    reveal_strlit("MUID");
    reveal_strlit("ANON");
    reveal_strlit("NAP");
    reveal_strlit("MSFPC");
    reveal_strlit("MC1");
    reveal_strlit("AI_sentBuffer");
    reveal_strlit("__cf_bm");
    reveal_strlit("cf_clearance");
    reveal_strlit("__cfruid");
    reveal_strlit("__cfduid");
    reveal_strlit("__hstc");
    reveal_strlit("hubspotutk");
    reveal_strlit("__hssc");
    reveal_strlit("__hssrc");
    reveal_strlit("bcookie");
    reveal_strlit("li_sugr");
    reveal_strlit("lidc");
    reveal_strlit("li_at");
    reveal_strlit("UserMatchHistory");
    reveal_strlit("AnalyticsSyncHistory");
    reveal_strlit("lang");
    reveal_strlit("_ttp");
    reveal_strlit("ttwid");
    reveal_strlit("tt_csrf_token");
    reveal_strlit("msToken");
    reveal_strlit("_pinterest_sess");
    reveal_strlit("_pin_unauth");
    reveal_strlit("_routing_id");
    reveal_strlit("_twitter_sess");
    reveal_strlit("ct0");
    reveal_strlit("guest_id");
    reveal_strlit("personalization_id");
    reveal_strlit("PLAY_SESSION");
    reveal_strlit("wday_vps_cookie");
    reveal_strlit("wd-browser-id");
    reveal_strlit("glide_user_route");
    reveal_strlit("glide_session_store");
    reveal_strlit("sap-usercontext");
    reveal_strlit("MYSAPSSO2");
    reveal_strlit("BrowserId");
    reveal_strlit("CookieConsentPolicy");
    reveal_strlit("sid");
    reveal_strlit("oid");
    reveal_strlit("inst");
    reveal_strlit("cloud.session.token");
    reveal_strlit("atlassian.xsrf.token");
    reveal_strlit("tenant.session.token");
    reveal_strlit("_zendesk_cookie");
    reveal_strlit("_zendesk_session");
    reveal_strlit("_zendesk_shared_session");
    reveal_strlit("AWSALB");
    reveal_strlit("AWSALBCORS");
    reveal_strlit("aws-waf-token");
    reveal_strlit("__stripe_mid");
    reveal_strlit("__stripe_sid");
    reveal_strlit("ajs_user_id");
    reveal_strlit("ajs_anonymous_id");
    reveal_strlit("optimizelyEndUserId");
    reveal_strlit("_dd_s");
    reveal_strlit("csrftoken");
    reveal_strlit("PHPSESSID");
    reveal_strlit("JSESSIONID");
    reveal_strlit("ASP.NET_SessionId");
    reveal_strlit("connect.sid");
    reveal_strlit("rack.session");
    reveal_strlit("laravel_session");
    reveal_strlit("_csrf");
    reveal_strlit("XSRF-TOKEN");
    reveal_strlit("Segment: anonymous visitor analytics ID");
    reveal_strlit("Optimizely: A/B test user identifier");
    reveal_strlit("Datadog RUM: browser session tracking");
    reveal_strlit("CSRF: cross-site request forgery protection token");
    reveal_strlit("PHP: server-side session identifier");
    reveal_strlit("Java Servlet: server-side session identifier");
    reveal_strlit("ASP.NET: server-side session identifier");
    reveal_strlit("Node.js Express: session identifier");
    reveal_strlit("Ruby Rack: server-side session identifier");
    reveal_strlit("Laravel: encrypted session identifier");
    reveal_strlit("CSRF: cross-site request forgery token");
    reveal_strlit("CSRF: cross-site request forgery token");
    if i == 84 {
        assert("ajs_anonymous_id"@[0] != "UserMatchHistory"@[0]);
        assert("ajs_anonymous_id"@[0] != "glide_user_route"@[0]);
        assert("ajs_anonymous_id"@[0] != "_zendesk_session"@[0]);
        assert(known_description("ajs_anonymous_id"@) == Some("Segment: anonymous visitor analytics ID"@));
    } else if i == 85 {
        assert("optimizelyEndUserId"@[0] != "glide_session_store"@[0]);
        assert("optimizelyEndUserId"@[0] != "CookieConsentPolicy"@[0]);
        assert("optimizelyEndUserId"@[0] != "cloud.session.token"@[0]);
        assert(known_description("optimizelyEndUserId"@) == Some("Optimizely: A/B test user identifier"@));
    } else if i == 86 {
        assert("_dd_s"@[0] != "MSFPC"@[0]);
        assert("_dd_s"@[0] != "li_at"@[0]);
        assert("_dd_s"@[0] != "ttwid"@[0]);
        assert(known_description("_dd_s"@) == Some("Datadog RUM: browser session tracking"@));
    } else if i == 87 {
        assert("csrftoken"@[0] != "MYSAPSSO2"@[0]);
        assert("csrftoken"@[0] != "BrowserId"@[0]);
        assert(known_description("csrftoken"@) == Some("CSRF: cross-site request forgery protection token"@));
    } else if i == 88 {
        assert("PHPSESSID"@[0] != "MYSAPSSO2"@[0]);
        assert("PHPSESSID"@[0] != "BrowserId"@[0]);
        assert("PHPSESSID"@[0] != "csrftoken"@[0]);
        assert(known_description("PHPSESSID"@) == Some("PHP: server-side session identifier"@));
    } else if i == 89 {
        assert("JSESSIONID"@[0] != "hubspotutk"@[0]);
        assert("JSESSIONID"@[0] != "AWSALBCORS"@[0]);
        assert(known_description("JSESSIONID"@) == Some("Java Servlet: server-side session identifier"@));
    } else if i == 90 {
        assert(known_description("ASP.NET_SessionId"@) == Some("ASP.NET: server-side session identifier"@));
    } else if i == 91 {
        assert("connect.sid"@[0] != "_pin_unauth"@[0]);
        assert("connect.sid"@[0] != "_routing_id"@[0]);
        assert("connect.sid"@[0] != "ajs_user_id"@[0]);
        assert(known_description("connect.sid"@) == Some("Node.js Express: session identifier"@));
    } else if i == 92 {
        assert("rack.session"@[0] != "cf_clearance"@[0]);
        assert("rack.session"@[0] != "PLAY_SESSION"@[0]);
        assert("rack.session"@[0] != "__stripe_mid"@[0]);
        assert("rack.session"@[0] != "__stripe_sid"@[0]);
        assert(known_description("rack.session"@) == Some("Ruby Rack: server-side session identifier"@));
    } else if i == 93 {
        assert("laravel_session"@[0] != "SEARCH_SAMESITE"@[0]);
        assert("laravel_session"@[0] != "_pinterest_sess"@[0]);
        assert("laravel_session"@[0] != "wday_vps_cookie"@[0]);
        assert("laravel_session"@[0] != "sap-usercontext"@[0]);
        assert("laravel_session"@[0] != "_zendesk_cookie"@[0]);
        assert(known_description("laravel_session"@) == Some("Laravel: encrypted session identifier"@));
    } else if i == 94 {
        assert("_csrf"@[0] != "MSFPC"@[0]);
        assert("_csrf"@[0] != "li_at"@[0]);
        assert("_csrf"@[0] != "ttwid"@[0]);
        assert("_csrf"@[1] != "_dd_s"@[1]);
        assert(known_description("_csrf"@) == Some("CSRF: cross-site request forgery token"@));
    } else if i == 95 {
        assert("XSRF-TOKEN"@[0] != "hubspotutk"@[0]);
        assert("XSRF-TOKEN"@[0] != "AWSALBCORS"@[0]);
        assert("XSRF-TOKEN"@[0] != "JSESSIONID"@[0]);
        assert(known_description("XSRF-TOKEN"@) == Some("CSRF: cross-site request forgery token"@));
    }
}

/// Every name of the dictionary of well-known cookies is described as the
/// dictionary lists it: names that share an entry share its description, and
/// an exact entry comes before any family prefix.
pub proof fn law_well_known_names_are_described(i: int)
    requires
        0 <= i < well_known_count(),
    ensures
        known_description(well_known_cookie(i).0) == Some(well_known_cookie(i).1),
{
    if i < 12 {
        lemma_well_known_0_to_11(i);
    } else if i < 24 {
        lemma_well_known_12_to_23(i);
    } else if i < 36 {
        lemma_well_known_24_to_35(i);
    } else if i < 48 {
        lemma_well_known_36_to_47(i);
    } else if i < 60 {
        lemma_well_known_48_to_59(i);
    } else if i < 72 {
        lemma_well_known_60_to_71(i);
    } else if i < 84 {
        lemma_well_known_72_to_83(i);
    } else if i < 96 {
        lemma_well_known_84_to_95(i);
    }
}


} // verus!
