//! The name under which the browser presents itself to servers.

use vstd::prelude::*;

verus! {

/// The kind of system the browser runs on.
#[derive(Clone, Copy, Debug, PartialEq, Eq, Structural)]
pub enum Platform {
    MacOs,
    Ios,
    Android,
    Linux,
    Windows,
}

/// The user agent string for each platform.
pub open spec fn user_agent_of(platform: Platform) -> Seq<char> {
    match platform {
        Platform::MacOs =>
            "Mozilla/5.0 (Macintosh; Intel Mac OS X 10.15; rv:109.0) Servo/1.0 Firefox/111.0"@,
        Platform::Ios =>
            "Mozilla/5.0 (iPhone; CPU iPhone OS 16_4 like Mac OS X; rv:109.0) Servo/1.0 Firefox/111.0"@,
        Platform::Android => "Mozilla/5.0 (Android; Mobile; rv:109.0) Servo/1.0 Firefox/111.0"@,
        Platform::Linux => "Mozilla/5.0 (X11; Linux x86_64; rv:109.0) Servo/1.0 Firefox/111.0"@,
        Platform::Windows =>
            "Mozilla/5.0 (Windows NT 10.0; Win64; x64; rv:109.0) Servo/1.0 Firefox/111.0"@,
    }
}

/// The user agent string that the engine sends from `platform`.
pub fn default_user_agent_string(platform: Platform) -> (r: &'static str)
    ensures
        r@ == user_agent_of(platform),
{
    match platform {
        Platform::MacOs =>
            "Mozilla/5.0 (Macintosh; Intel Mac OS X 10.15; rv:109.0) Servo/1.0 Firefox/111.0",
        Platform::Ios =>
            "Mozilla/5.0 (iPhone; CPU iPhone OS 16_4 like Mac OS X; rv:109.0) Servo/1.0 Firefox/111.0",
        Platform::Android => "Mozilla/5.0 (Android; Mobile; rv:109.0) Servo/1.0 Firefox/111.0",
        Platform::Linux => "Mozilla/5.0 (X11; Linux x86_64; rv:109.0) Servo/1.0 Firefox/111.0",
        Platform::Windows =>
            "Mozilla/5.0 (Windows NT 10.0; Win64; x64; rv:109.0) Servo/1.0 Firefox/111.0",
    }
}

} // verus!
