use vstd::prelude::*;

verus! {

/// The operating systems that the start-at-login setting knows.
#[derive(Clone, Copy, Debug, PartialEq, Eq, Structural)]
pub enum Platform {
    Windows,
    MacOs,
    Other,
}

/// The value name under the registry's `Run` key.
pub open spec fn windows_value_name() -> Seq<char> {
    "RightCodeFloatingBall"@
}

/// The launch agent's label, which also names its file.
pub open spec fn launch_agent_label() -> Seq<char> {
    "codes.rightcode.floatingball"@
}

pub open spec fn plist_head() -> Seq<char> {
    "<?xml version=\"1.0\" encoding=\"UTF-8\"?>\n<!DOCTYPE plist PUBLIC \"-//Apple//DTD PLIST 1.0//EN\" \"http://www.apple.com/DTDs/PropertyList-1.0.dtd\">\n<plist version=\"1.0\">\n<dict>\n  <key>Label</key>\n  <string>codes.rightcode.floatingball</string>\n  <key>ProgramArguments</key>\n  <array>\n    <string>"@
}

pub open spec fn plist_tail() -> Seq<char> {
    "</string>\n  </array>\n  <key>RunAtLoad</key>\n  <true/>\n</dict>\n</plist>\n"@
}

/// Whether starting at login can be set on `platform`.
pub fn is_supported(platform: Platform) -> (r: bool)
    ensures
        r == (platform != Platform::Other),
{
    match platform {
        Platform::Other => false,
        _ => true,
    }
}

pub fn windows_value_name_text() -> (r: &'static str)
    ensures
        r@ == windows_value_name(),
{
    "RightCodeFloatingBall"
}

/// The file name of the launch agent.
pub fn launch_agent_file_name() -> (r: String)
    ensures
        r@ == launch_agent_label() + ".plist"@,
{
    String::from_str("codes.rightcode.floatingball").concat(".plist")
}

/// The command line stored in the registry: the program's path in quotes.
pub fn run_command(exe: &str) -> (r: String)
    ensures
        r@ == "\""@ + exe@ + "\""@,
{
    String::from_str("\"").concat(exe).concat("\"")
}

/// The launch agent that starts `exe` at login.
pub fn launch_agent_plist(exe: &str) -> (r: String)
    ensures
        r@ == plist_head() + exe@ + plist_tail(),
{
    String::from_str(
        "<?xml version=\"1.0\" encoding=\"UTF-8\"?>\n<!DOCTYPE plist PUBLIC \"-//Apple//DTD PLIST 1.0//EN\" \"http://www.apple.com/DTDs/PropertyList-1.0.dtd\">\n<plist version=\"1.0\">\n<dict>\n  <key>Label</key>\n  <string>codes.rightcode.floatingball</string>\n  <key>ProgramArguments</key>\n  <array>\n    <string>",
    ).concat(exe).concat(
        "</string>\n  </array>\n  <key>RunAtLoad</key>\n  <true/>\n</dict>\n</plist>\n",
    )
}

} // verus!
