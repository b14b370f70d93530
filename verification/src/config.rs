//! The bot's settings: where it posts for each series, whom it calls, and
//! where its store is.

use vstd::prelude::*;
use crate::model::Series;

verus! {

/// The channel's side: the token, the guild, and a channel and a role for
/// each series.
#[derive(Debug)]
pub struct DiscordConfig {
    pub bot_token: String,
    pub guild: u64,
    pub f1_channel: u64,
    pub f1_role: u64,
    pub f2_channel: u64,
    pub f2_role: u64,
    pub f3_channel: u64,
    pub f3_role: u64,
    pub f1a_role: u64,
    pub f1a_channel: u64,
}

/// The store's side: where it is and how to log in.
#[derive(Debug)]
pub struct DatabaseConfig {
    pub url: String,
    pub username: String,
    pub password: String,
    pub database: String,
}

/// All settings.
#[derive(Debug)]
pub struct Config {
    pub discord: DiscordConfig,
    pub database: DatabaseConfig,
}

impl Default for DatabaseConfig {
    fn default() -> (r: DatabaseConfig)
        ensures
            r.url@ == "mysql://127.0.0.1:3306"@,
            r.username@ == "notifbot"@,
            r.password@ == "password"@,
            r.database@ == "notifbot"@,
    {
        DatabaseConfig {
            url: "mysql://127.0.0.1:3306".to_owned(),
            username: "notifbot".to_owned(),
            password: "password".to_owned(),
            database: "notifbot".to_owned(),
        }
    }
}

impl Default for DiscordConfig {
    fn default() -> (r: DiscordConfig)
        ensures
            r.bot_token@ == "DISCORD_BOT_TOKEN"@,
            r.guild == 883847530687913995,
            r.f1_channel == 1002285400095719524,
            r.f1_role == 1033311726889861244,
            r.f2_channel == 1002285400095719524,
            r.f2_role == 1033311726889861244,
            r.f3_channel == 1002285400095719524,
            r.f3_role == 1033311726889861244,
            r.f1a_channel == 1002285400095719524,
            r.f1a_role == 1033311726889861244,
    {
        DiscordConfig {
            bot_token: "DISCORD_BOT_TOKEN".to_owned(),
            guild: 883847530687913995,
            f1_channel: 1002285400095719524,
            f1_role: 1033311726889861244,
            f2_channel: 1002285400095719524,
            f2_role: 1033311726889861244,
            f3_channel: 1002285400095719524,
            f3_role: 1033311726889861244,
            f1a_channel: 1002285400095719524,
            f1a_role: 1033311726889861244,
        }
    }
}

impl Default for Config {
    fn default() -> (r: Config)
        ensures
            r.discord.bot_token@ == "DISCORD_BOT_TOKEN"@,
            r.discord.guild == 883847530687913995,
            r.discord.f1_channel == 1002285400095719524,
            r.discord.f1_role == 1033311726889861244,
            r.discord.f2_channel == 1002285400095719524,
            r.discord.f2_role == 1033311726889861244,
            r.discord.f3_channel == 1002285400095719524,
            r.discord.f3_role == 1033311726889861244,
            r.discord.f1a_channel == 1002285400095719524,
            r.discord.f1a_role == 1033311726889861244,
            r.database.url@ == "mysql://127.0.0.1:3306"@,
            r.database.username@ == "notifbot"@,
            r.database.password@ == "password"@,
            r.database.database@ == "notifbot"@,
    {
        Config { discord: DiscordConfig::default(), database: DatabaseConfig::default() }
    }
}

impl Config {
    /// The address of the store with the login in it.
    pub open spec fn db_text(self) -> Seq<char> {
        "mysql://"@ + self.database.username@ + ":"@ + self.database.password@ + "@"@
            + self.database.url@ + "/"@ + self.database.database@
    }

    /// The role that is called when a session of the series starts.
    pub open spec fn role_of(self, series: Series) -> u64 {
        match series {
            Series::F1 => self.discord.f1_role,
            Series::F2 => self.discord.f2_role,
            Series::F3 => self.discord.f3_role,
            _ => self.discord.f1a_role,
        }
    }

    /// The channel in which the series' messages stand.
    pub open spec fn channel_of(self, series: Series) -> u64 {
        match series {
            Series::F1 => self.discord.f1_channel,
            Series::F2 => self.discord.f2_channel,
            Series::F3 => self.discord.f3_channel,
            _ => self.discord.f1a_channel,
        }
    }

    /// The address of the store with the login in it.
    pub fn db_string(&self) -> (r: String)
        ensures
            r@ == self.db_text(),
    {
        let mut out = String::new();
        out.append("mysql://");
        out.append(self.database.username.as_str());
        out.append(":");
        out.append(self.database.password.as_str());
        out.append("@");
        out.append(self.database.url.as_str());
        out.append("/");
        out.append(self.database.database.as_str());
        assert(out@ =~= self.db_text());
        out
    }

    /// The role that is called when a session of the series starts. No role
    /// is kept for `Unsupported`.
    pub fn role(&self, series: Series) -> (r: u64)
        requires
            series != Series::Unsupported,
        ensures
            r == self.role_of(series),
    {
        match series {
            Series::F1 => self.discord.f1_role,
            Series::F2 => self.discord.f2_role,
            Series::F3 => self.discord.f3_role,
            _ => self.discord.f1a_role,
        }
    }

    /// The channel in which the series' messages stand. No channel is kept
    /// for `Unsupported`.
    pub fn channel(&self, series: Series) -> (r: u64)
        requires
            series != Series::Unsupported,
        ensures
            r == self.channel_of(series),
    {
        match series {
            Series::F1 => self.discord.f1_channel,
            Series::F2 => self.discord.f2_channel,
            Series::F3 => self.discord.f3_channel,
            _ => self.discord.f1a_channel,
        }
    }
}

} // verus!
