//! Release channels, and whether the daemon runs as root.
use vstd::prelude::*;

use crate::text::{
    after_first_word, chars_of, eq_str, first_word, lines, lines_of, lower_chars, lower_seq, owned,
    parse_unsigned, parse_unsigned_chars, split_first_word, views,
};

verus! {

#[derive(Clone, Copy, Debug, PartialEq, Eq, Structural)]
pub enum UpdateChannel {
    Stable,
    Nightly,
    Disabled,
}

/// The channels that can be asked for on the command line.
#[derive(Clone, Copy, Debug, PartialEq, Eq, Structural)]
pub enum ChannelArg {
    Stable,
    Nightly,
}

pub fn channel_of_arg(value: ChannelArg) -> (c: UpdateChannel)
    ensures
        c == (match value {
            ChannelArg::Stable => UpdateChannel::Stable,
            ChannelArg::Nightly => UpdateChannel::Nightly,
        }),
{
    match value {
        ChannelArg::Stable => UpdateChannel::Stable,
        ChannelArg::Nightly => UpdateChannel::Nightly,
    }
}

/// An update channel name that is none of `stable`, `nightly`, `disabled`.
pub struct InvalidChannel {
    pub value: String,
}

impl InvalidChannel {
    pub fn message(&self) -> (s: String)
        ensures
            s@ == "invalid update channel: "@ + self.value@,
    {
        crate::text::concat2("invalid update channel: ", self.value.as_str())
    }
}

pub open spec fn channel_named(value: Seq<char>) -> Option<UpdateChannel> {
    let v = lower_seq(value);
    if v == "stable"@ {
        Some(UpdateChannel::Stable)
    } else if v == "nightly"@ {
        Some(UpdateChannel::Nightly)
    } else if v == "disabled"@ {
        Some(UpdateChannel::Disabled)
    } else {
        None
    }
}

/// A channel by its name, in any ASCII case.
pub fn parse_channel(value: &str) -> (r: Result<UpdateChannel, InvalidChannel>)
    ensures
        match r {
            Ok(c) => channel_named(value@) == Some(c),
            Err(e) => channel_named(value@) is None && e.value@ == value@,
        },
{
    let lower = lower_chars(chars_of(value).as_slice());
    if eq_str(lower.as_slice(), "stable") {
        Ok(UpdateChannel::Stable)
    } else if eq_str(lower.as_slice(), "nightly") {
        Ok(UpdateChannel::Nightly)
    } else if eq_str(lower.as_slice(), "disabled") {
        Ok(UpdateChannel::Disabled)
    } else {
        Err(InvalidChannel { value: owned(value) })
    }
}

/// The channel of `featherfly update`: the one asked for, else the
/// configured one (when a configuration was loaded), else stable.
pub fn resolve_channel(override_channel: Option<ChannelArg>, configured: Option<UpdateChannel>) -> (c:
    UpdateChannel)
    ensures
        c == (match override_channel {
            Some(ChannelArg::Stable) => UpdateChannel::Stable,
            Some(ChannelArg::Nightly) => UpdateChannel::Nightly,
            None => match configured {
                Some(k) => k,
                None => UpdateChannel::Stable,
            },
        }),
{
    match override_channel {
        Some(arg) => channel_of_arg(arg),
        None => match configured {
            Some(k) => k,
            None => UpdateChannel::Stable,
        },
    }
}

/// The channel of `featherfly version --check`: the one named on the
/// command line (refused when it names none), else the configured one, else
/// stable.
pub fn version_check_channel(named: Option<&str>, configured: Option<UpdateChannel>) -> (r: Result<
    UpdateChannel,
    InvalidChannel,
>)
    ensures
        match named {
            Some(v) => match channel_named(v@) {
                Some(c) => r == Ok::<UpdateChannel, InvalidChannel>(c),
                None => r matches Err(e) && e.value@ == v@,
            },
            None => r == Ok::<UpdateChannel, InvalidChannel>(
                match configured {
                    Some(k) => k,
                    None => UpdateChannel::Stable,
                },
            ),
        },
{
    match named {
        Some(v) => parse_channel(v),
        None => Ok(
            match configured {
                Some(k) => k,
                None => UpdateChannel::Stable,
            },
        ),
    }
}

/// The user id that a line of `/proc/self/status` gives: its first word is
/// `Uid:` and its second word is a `u32`.
pub open spec fn uid_of_line(line: Seq<char>) -> Option<nat> {
    if first_word(line) == "Uid:"@ {
        parse_unsigned(first_word(after_first_word(line)), u32::MAX as nat)
    } else {
        None
    }
}

/// The first line that gives a user id gives it.
pub open spec fn first_uid(ls: Seq<Seq<char>>) -> Option<nat>
    decreases ls.len(),
{
    if ls.len() == 0 {
        None
    } else {
        match uid_of_line(ls[0]) {
            Some(u) => Some(u),
            None => first_uid(ls.drop_first()),
        }
    }
}

fn line_uid(line: &[char]) -> (r: Option<u32>)
    ensures
        match uid_of_line(line@) {
            Some(u) => r matches Some(x) && x as nat == u,
            None => r is None,
        },
{
    let (w1, rest) = split_first_word(line);
    if !eq_str(w1.as_slice(), "Uid:") {
        return None;
    }
    let tail = crate::text::slice_chars(line, rest, line.len());
    assert(tail@ =~= line@.skip(rest as int));
    let (w2, _) = split_first_word(tail.as_slice());
    match parse_unsigned_chars(w2.as_slice(), 4294967295u64) {
        Some(n) => Some(n as u32),
        None => None,
    }
}

/// The real user id in the text of `/proc/self/status`.
pub fn uid_from_status(status: &str) -> (r: Option<u32>)
    ensures
        match first_uid(lines_of(status@)) {
            Some(u) => r matches Some(x) && x as nat == u,
            None => r is None,
        },
{
    let ls = lines(chars_of(status).as_slice());
    let ghost all = views(ls@);
    let mut i: usize = 0;
    assert(all.skip(0) =~= all);
    while i < ls.len()
        invariant
            i <= ls@.len(),
            all == views(ls@),
            all == lines_of(status@),
            first_uid(all) == first_uid(all.skip(i as int)),
        decreases ls.len() - i,
    {
        assert(all.skip(i as int)[0] == ls@[i as int]@);
        assert(all.skip(i as int).drop_first() =~= all.skip(i + 1));
        match line_uid(ls[i].as_slice()) {
            Some(u) => {
                return Some(u);
            },
            None => {},
        }
        i = i + 1;
    }
    None
}

/// Root is user id 0; a status that could not be read (`None`), or that
/// gives no user id, is no root.
pub fn is_root_status(status: Option<&str>) -> (b: bool)
    ensures
        b == (match status {
            Some(s) => first_uid(lines_of(s@)) == Some(0nat),
            None => false,
        }),
{
    match status {
        Some(s) => match uid_from_status(s) {
            Some(u) => u == 0,
            None => false,
        },
        None => false,
    }
}

/// What follows a successful update: a restart when it was asked for, else
/// a hint when the host runs systemd, else nothing.
#[derive(Clone, Copy, Debug, PartialEq, Eq, Structural)]
pub enum AfterUpdate {
    Restart,
    HintRestart,
    Nothing,
}

pub fn after_update(restart: bool, systemd_present: bool) -> (a: AfterUpdate)
    ensures
        a == (if restart {
            AfterUpdate::Restart
        } else if systemd_present {
            AfterUpdate::HintRestart
        } else {
            AfterUpdate::Nothing
        }),
{
    if restart {
        AfterUpdate::Restart
    } else if systemd_present {
        AfterUpdate::HintRestart
    } else {
        AfterUpdate::Nothing
    }
}

/// `featherfly update`: check, or install the latest build and maybe
/// restart, on a channel.
pub struct UpdateArgs {
    pub apply: bool,
    pub restart: bool,
    pub channel: Option<ChannelArg>,
}

pub struct UpdateCommand;

/// Installing an update needs root.
pub struct NotRoot;

pub fn check_apply_allowed(is_root: bool) -> (r: Result<(), NotRoot>)
    ensures
        r is Ok <==> is_root,
{
    if is_root {
        Ok(())
    } else {
        Err(NotRoot)
    }
}

} // verus!
