//! The banner that is shown for one log event.

use vstd::prelude::*;
use vstd::string::*;

verus! {

/// The number of `=` characters in a divider line.
pub const DIVIDER_WIDTH: usize = 70;

/// The agent name that stands in for an empty one.
pub open spec fn unknown_agent() -> Seq<char> {
    "Unknown"@
}

/// The agent name as it is shown: the placeholder where the sender gave none.
pub open spec fn shown_agent(agent: Seq<char>) -> Seq<char> {
    if agent.len() == 0 {
        unknown_agent()
    } else {
        agent
    }
}

/// A divider line: `=`, seventy times.
pub open spec fn divider_text() -> Seq<char> {
    Seq::new(DIVIDER_WIDTH as nat, |i: int| '=')
}

/// What stands between the top divider and the time.
pub open spec fn banner_head() -> Seq<char> {
    "\n📩 ["@
}

/// What stands between the time and the agent name.
pub open spec fn banner_from() -> Seq<char> {
    "] 收到来自 '"@
}

/// What stands between the agent name and the content.
pub open spec fn banner_says() -> Seq<char> {
    "' 的消息:\n"@
}

/// The banner for a message `content` of `agent`, received at `time`. The
/// agent name stands in it as given.
pub open spec fn banner_text(time: Seq<char>, agent: Seq<char>, content: Seq<char>) -> Seq<char> {
    "\n"@ + divider_text() + banner_head() + time + banner_from() + agent + banner_says() + content
        + "\n"@ + divider_text() + "\n"@
}

/// Where the agent name starts in the banner.
pub open spec fn agent_offset(time: Seq<char>) -> nat {
    "\n"@.len() + divider_text().len() + banner_head().len() + time.len() + banner_from().len()
}

/// Where the content starts in the banner.
pub open spec fn content_offset(time: Seq<char>, agent: Seq<char>) -> nat {
    agent_offset(time) + agent.len() + banner_says().len()
}

/// Whether `needle` stands in `hay` as one unbroken run.
pub open spec fn occurs_in(needle: Seq<char>, hay: Seq<char>) -> bool {
    exists|at: int|
        0 <= at && at + needle.len() <= hay.len() && #[trigger] hay.subrange(
            at,
            at + needle.len(),
        ) == needle
}

/// Replaces an empty agent name by the placeholder.
pub fn normalize_agent(agent: String) -> (shown: String)
    ensures
        shown@ == shown_agent(agent@),
{
    if agent.as_str().is_empty() {
        "Unknown".to_owned()
    } else {
        agent
    }
}

/// Builds a divider line.
pub fn divider() -> (line: String)
    ensures
        line@ == divider_text(),
{
    let mut line = String::new();
    let mut n: usize = 0;
    while n < DIVIDER_WIDTH
        invariant
            n <= DIVIDER_WIDTH,
            line@ == Seq::new(n as nat, |i: int| '='),
        decreases DIVIDER_WIDTH - n,
    {
        proof {
            reveal_strlit("=");
        }
        line.append("=");
        n = n + 1;
        assert(line@ =~= Seq::new(n as nat, |i: int| '='));
    }
    line
}

/// Formats the banner of one log event.
pub fn format_banner(time: &str, agent: &str, content: &str) -> (banner: String)
    ensures
        banner@ == banner_text(time@, agent@, content@),
{
    let line = divider();
    let mut banner = "\n".to_owned();
    banner.append(line.as_str());
    banner.append("\n📩 [");
    banner.append(time);
    banner.append("] 收到来自 '");
    banner.append(agent);
    banner.append("' 的消息:\n");
    banner.append(content);
    banner.append("\n");
    banner.append(line.as_str());
    banner.append("\n");
    banner
}

/// The banner holds the agent name and the content, each as one unbroken
/// run, at the offsets that the layout gives.
pub proof fn lemma_banner_holds_agent_and_content(
    time: Seq<char>,
    agent: Seq<char>,
    content: Seq<char>,
)
    ensures
        occurs_in(agent, banner_text(time, agent, content)),
        occurs_in(content, banner_text(time, agent, content)),
        banner_text(time, agent, content).subrange(
            agent_offset(time) as int,
            (agent_offset(time) + agent.len()) as int,
        ) == agent,
        banner_text(time, agent, content).subrange(
            content_offset(time, agent) as int,
            (content_offset(time, agent) + content.len()) as int,
        ) == content,
{
    let banner = banner_text(time, agent, content);
    let a = agent_offset(time) as int;
    let c = content_offset(time, agent) as int;
    let before_agent = "\n"@ + divider_text() + banner_head() + time + banner_from();
    let before_content = before_agent + agent + banner_says();
    let tail = "\n"@ + divider_text() + "\n"@;
    assert(banner =~= before_content + content + tail);
    assert(before_agent.len() == a);
    assert(before_content.len() == c);
    assert(banner.subrange(a, a + agent.len()) =~= agent);
    assert(banner.subrange(c, c + content.len()) =~= content);
}

} // verus!
