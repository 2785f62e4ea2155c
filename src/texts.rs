//! The texts the bot posts for its role commands.
use vstd::prelude::*;
use vstd::string::StringExecFns;

use crate::roles::{configs_view, strings_view, RoleConfigView, WereWolfRoleConfig};

verus! {

/// The text of a boolean.
pub open spec fn bool_text(b: bool) -> Seq<char> {
    if b {
        "true"@
    } else {
        "false"@
    }
}

/// The `Debug` text of a list of strings (quoted and escaped, in brackets).
pub uninterp spec fn debug_strings_text(v: Seq<Seq<char>>) -> Seq<char>;

/// Relies on the `Debug` formatting of `Vec<String>`: its text depends on the strings alone.
#[verifier::external_body]
fn debug_strings(v: &Vec<String>) -> (r: String)
    ensures
        r@ == debug_strings_text(strings_view(v@)),
{
    format!("{:?}", v)
}

/// Appends the text of a boolean.
fn push_bool(s: &mut String, b: bool)
    ensures
        final(s)@ == old(s)@ + bool_text(b),
{
    if b {
        s.append("true");
    } else {
        s.append("false");
    }
}

/// The one-line description of a role configuration.
pub open spec fn describe_spec(c: RoleConfigView) -> Seq<char> {
    c.name + "("@ + c.emoji + ") - Multiple Players: "@ + bool_text(c.multi_player)
        + " - Contains another Role: "@ + bool_text(c.masks_role) + " - Accesses other Channels: "@
        + debug_strings_text(c.other_role_channels)
}

impl WereWolfRoleConfig {
    /// A one-line description of the role: name, emoji, flags and extra channels.
    pub fn describe(&self) -> (r: String)
        ensures
            r@ == describe_spec(self@),
    {
        let mut s = <String as StringExecFns>::from_str(self.name());
        s.append("(");
        s.append(self.emoji());
        s.append(") - Multiple Players: ");
        push_bool(&mut s, self.multi_player());
        s.append(" - Contains another Role: ");
        push_bool(&mut s, self.masks_role());
        s.append(" - Accesses other Channels: ");
        let extra = debug_strings(&self.extra_channels());
        s.append(extra.as_str());
        s
    }
}

/// The list of configured roles, one described role per line.
pub open spec fn role_list_text(roles: Seq<RoleConfigView>) -> Seq<char>
    decreases roles.len(),
{
    if roles.len() == 0 {
        "Roles\n\n"@
    } else {
        role_list_text(roles.drop_last()) + "* "@ + describe_spec(roles.last()) + "\n"@
    }
}

/// The message that lists the configured roles.
pub fn role_list_msg(roles: &[WereWolfRoleConfig]) -> (r: String)
    ensures
        r@ == if roles@.len() == 0 {
            "No Roles configured"@
        } else {
            role_list_text(configs_view(roles@))
        },
{
    if roles.len() == 0 {
        return <String as StringExecFns>::from_str("No Roles configured");
    }
    let ghost rv = configs_view(roles@);
    let mut result = <String as StringExecFns>::from_str("Roles\n\n");
    let mut i: usize = 0;
    while i < roles.len()
        invariant
            i <= roles@.len(),
            rv == configs_view(roles@),
            result@ == role_list_text(rv.subrange(0, i as int)),
        decreases roles.len() - i,
    {
        result.append("* ");
        let line = roles[i].describe();
        result.append(line.as_str());
        result.append("\n");
        assert(rv.subrange(0, i + 1).drop_last() =~= rv.subrange(0, i as int));
        i = i + 1;
    }
    assert(rv.subrange(0, roles@.len() as int) =~= rv);
    result
}

/// The reply to an `add-role` command that lacks a part.
pub open spec fn missing_part_text(part: Seq<char>) -> Seq<char> {
    "```\nMissing '"@ + part + "'\nFormat: 'add-role {name}'\n```"@
}

/// Tells the user which part of the `add-role` command is missing.
pub fn missing_part(missing: &str) -> (r: String)
    ensures
        r@ == missing_part_text(missing@),
{
    let mut s = <String as StringExecFns>::from_str("```\nMissing '");
    s.append(missing);
    s.append("'\nFormat: 'add-role {name}'\n```");
    s
}

/// The channel names joined by ", ".
pub open spec fn joined(channels: Seq<Seq<char>>) -> Seq<char>
    decreases channels.len(),
{
    if channels.len() == 0 {
        Seq::empty()
    } else if channels.len() == 1 {
        channels[0]
    } else {
        joined(channels.drop_last()) + ", "@ + channels.last()
    }
}

/// The question for the extra channels of a new role, with those chosen so far.
pub fn extra_channel_content(channels: &[String]) -> (r: String)
    ensures
        r@ == "Reply to this Message with all the extra Roles whose Chat this Role should also be able to read ("@
            + joined(strings_view(channels@)) + ")"@,
{
    let ghost cv = strings_view(channels@);
    let mut list = String::new();
    let mut i: usize = 0;
    while i < channels.len()
        invariant
            i <= channels@.len(),
            cv == strings_view(channels@),
            list@ == joined(cv.subrange(0, i as int)),
        decreases channels.len() - i,
    {
        if i > 0 {
            list.append(", ");
        }
        list.append(channels[i].as_str());
        assert(cv.subrange(0, i + 1).drop_last() =~= cv.subrange(0, i as int));
        proof {
            if i == 0 {
                assert(list@ =~= cv.subrange(0, 1)[0]);
            }
        }
        i = i + 1;
    }
    assert(cv.subrange(0, channels@.len() as int) =~= cv);
    let mut s = <String as StringExecFns>::from_str(
        "Reply to this Message with all the extra Roles whose Chat this Role should also be able to read (",
    );
    s.append(list.as_str());
    s.append(")");
    s
}

} // verus!
