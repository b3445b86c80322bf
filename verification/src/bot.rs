//! The bot's state as the handlers and the dispatch loop see it.

use vstd::prelude::*;
use crate::command::Command;
use crate::dispatch::{handle_msg, planned, Action};
use crate::registry::{built_in, command_tree};
use crate::text::str_eq;

verus! {

/// What the bot is configured with: its channel and the senders that may
/// give it privileged commands.
pub struct BotConfig {
    pub channel: String,
    pub gym_staff: Vec<String>,
}

/// The bot: its configuration, the second it started at, whether a video API
/// is at hand, and its command tree.
pub struct Bot {
    config: BotConfig,
    start: i64,
    youtube: bool,
    commands: Vec<(String, Command)>,
}

/// Whether `name` is among `staff`.
pub open spec fn among(staff: Seq<String>, name: Seq<char>) -> bool {
    exists|i: int| 0 <= i < staff.len() && (#[trigger] staff[i])@ == name
}

impl Bot {
    /// The configuration.
    pub closed spec fn config(&self) -> BotConfig {
        self.config
    }

    /// The second the bot started at.
    pub closed spec fn start(&self) -> i64 {
        self.start
    }

    /// Whether a video API is at hand.
    pub closed spec fn youtube(&self) -> bool {
        self.youtube
    }

    /// The command tree.
    pub closed spec fn commands(&self) -> Vec<(String, Command)> {
        self.commands
    }

    /// A bot without a video API, with the tree of built-in commands.
    pub fn new(config: BotConfig, start: i64) -> (bot: Bot)
        ensures
            bot.config() == config,
            bot.start() == start,
            !bot.youtube(),
            built_in(bot.commands()@),
    {
        Bot { config, start, youtube: false, commands: command_tree() }
    }

    /// A bot with a video API, with the tree of built-in commands.
    pub fn with_youtube_api(config: BotConfig, start: i64) -> (bot: Bot)
        ensures
            bot.config() == config,
            bot.start() == start,
            bot.youtube(),
            built_in(bot.commands()@),
    {
        Bot { config, start, youtube: true, commands: command_tree() }
    }

    /// Whether `name` may give privileged commands.
    pub fn is_boss(&self, name: &str) -> (yes: bool)
        ensures
            yes == among(self.config().gym_staff@, name@),
    {
        let mut i: usize = 0;
        while i < self.config.gym_staff.len()
            invariant
                i <= self.config.gym_staff.len(),
                forall|j: int| 0 <= j < i ==> (#[trigger] self.config.gym_staff@[j])@ != name@,
            decreases self.config.gym_staff.len() - i,
        {
            if str_eq(self.config.gym_staff[i].as_str(), name) {
                return true;
            }
            i += 1;
        }
        false
    }

    /// Whether a video API is at hand.
    pub fn has_youtube_api(&self) -> (yes: bool)
        ensures
            yes == self.youtube(),
    {
        self.youtube
    }

    /// The configuration.
    pub fn get_config(&self) -> (config: &BotConfig)
        ensures
            *config == self.config(),
    {
        &self.config
    }

    /// The configuration, to change it.
    pub fn get_config_mut(&mut self) -> (config: &mut BotConfig)
        ensures
            *config == old(self).config(),
            final(self).config() == *final(config),
            final(self).commands() == old(self).commands(),
            final(self).start() == old(self).start(),
            final(self).youtube() == old(self).youtube(),
    {
        &mut self.config
    }

    /// The second the bot started at.
    pub fn get_start(&self) -> (start: &i64)
        ensures
            *start == self.start(),
    {
        &self.start
    }

    /// The second the bot started at, to change it.
    pub fn get_start_mut(&mut self) -> (start: &mut i64)
        ensures
            *start == old(self).start(),
            final(self).start() == *final(start),
            final(self).config() == old(self).config(),
            final(self).commands() == old(self).commands(),
            final(self).youtube() == old(self).youtube(),
    {
        &mut self.start
    }

    /// The command tree.
    pub fn get_commands(&self) -> (commands: &Vec<(String, Command)>)
        ensures
            *commands == self.commands(),
    {
        &self.commands
    }

    /// The command tree, to reload its entries.
    pub fn get_commands_mut(&mut self) -> (commands: &mut Vec<(String, Command)>)
        ensures
            *commands == old(self).commands(),
            final(self).commands() == *final(commands),
            final(self).config() == old(self).config(),
            final(self).start() == old(self).start(),
            final(self).youtube() == old(self).youtube(),
    {
        &mut self.commands
    }

    /// Decides what to do with a line of chat, against the bot's own tree.
    pub fn handle_msg<'a>(&self, data: &'a str) -> (action: Action<'a>)
        ensures
            action.plan() == planned(self.commands()@, data@),
    {
        handle_msg(&self.commands, data)
    }
}

} // verus!
