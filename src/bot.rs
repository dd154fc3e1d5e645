//! The bot's entry points that the library can describe.

use vstd::prelude::*;

verus! {

/// The bot as a whole; starting it is the application's work.
pub struct HoloBot {}

/// The machines the bot is built for.
#[derive(Clone, Copy, Debug, PartialEq, Eq, Structural)]
pub enum TargetArch {
    /// The production board.
    Arm,
    /// Development machines.
    X86_64,
}

impl HoloBot {
    pub open spec fn spec_config_path(arch: TargetArch) -> Seq<char> {
        match arch {
            TargetArch::Arm => "production.json"@,
            TargetArch::X86_64 => "settings/development.json"@,
        }
    }

    /// The configuration file read on `arch`.
    pub fn get_config_path(arch: TargetArch) -> (r: &'static str)
        ensures
            r@ == HoloBot::spec_config_path(arch),
    {
        match arch {
            TargetArch::Arm => "production.json",
            TargetArch::X86_64 => "settings/development.json",
        }
    }
}

/// The service that posts notifications to the platform; it runs in the
/// application.
pub struct DiscordApi {}

} // verus!
