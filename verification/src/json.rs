//! The JSON text of the agent list.

use crate::text;
use crate::types::{AgentInfo, AgentModel};
use crate::workflow;
use vstd::prelude::*;

verus! {

/// The hexadecimal digit `d`, for `d < 16`.
pub open spec fn hex_digit(d: int) -> char {
    if d < 10 {
        (('0' as u32) + d) as char
    } else {
        (('a' as u32) + d - 10) as char
    }
}

/// One character inside a JSON string: the quotation mark, the backslash and the control
/// characters are escaped, every other one stands for itself.
pub open spec fn escaped_char(c: char) -> Seq<char> {
    let code = c as u32;
    if c == '"' || c == '\\' {
        seq!['\\', c]
    } else if code == 8 {
        seq!['\\', 'b']
    } else if code == 9 {
        seq!['\\', 't']
    } else if code == 10 {
        seq!['\\', 'n']
    } else if code == 12 {
        seq!['\\', 'f']
    } else if code == 13 {
        seq!['\\', 'r']
    } else if code < 32 {
        seq!['\\', 'u', '0', '0', hex_digit(code as int / 16), hex_digit(code as int % 16)]
    } else {
        seq![c]
    }
}

/// All characters of a text inside a JSON string.
pub open spec fn escaped(text: Seq<char>) -> Seq<char>
    decreases text.len(),
{
    if text.len() == 0 {
        Seq::empty()
    } else {
        escaped(text.drop_last()) + escaped_char(text.last())
    }
}

/// A text as a JSON string.
pub open spec fn json_string(text: Seq<char>) -> Seq<char> {
    seq!['"'] + escaped(text) + seq!['"']
}

/// An agent as a JSON object.
pub open spec fn json_agent(agent: AgentModel) -> Seq<char> {
    "{\"name\":"@ + json_string(agent.name) + ",\"contract_address\":"@ + json_string(
        agent.contract_address,
    ) + "}"@
}

/// Agents as a JSON array.
pub open spec fn json_agents(agents: Seq<AgentModel>) -> Seq<char> {
    "["@ + workflow::joined(agents.map_values(|agent: AgentModel| json_agent(agent)), ","@) + "]"@
}

/// Calls `serde_json::to_string` on a text. It is trusted to succeed on every text, since it writes
/// to memory only, and to give the text between quotation marks with each character written as
/// [`escaped_char`] says.
#[verifier::external_body]
fn quote(text: &str) -> (r: Result<String, String>)
    ensures
        r is Ok,
        r->Ok_0@ == json_string(text@),
{
    serde_json::to_string(text).map_err(|e| e.to_string())
}

/// Writes one agent as a JSON object.
fn write_agent(agent: &AgentInfo) -> (r: Result<String, String>)
    ensures
        r is Ok,
        r->Ok_0@ == json_agent(agent.deep_view()),
{
    let mut r = "{\"name\":".to_string();
    r.append(quote(agent.name.as_str())?.as_str());
    r.append(",\"contract_address\":");
    r.append(quote(agent.contract_address.as_str())?.as_str());
    r.append("}");
    Ok(r)
}

/// Writes agents as a JSON array.
pub fn write_agents(agents: &Vec<AgentInfo>) -> (r: Result<String, String>)
    ensures
        r is Ok,
        r->Ok_0@ == json_agents(agents.deep_view()),
{
    let mut parts: Vec<String> = Vec::new();
    let mut i: usize = 0;
    while i < agents.len()
        invariant
            i <= agents.len(),
            parts.len() == i,
            forall|j: int| 0 <= j < i ==> (#[trigger] parts[j])@ == json_agent(agents[j].deep_view()),
        decreases agents.len() - i,
    {
        parts.push(write_agent(&agents[i])?);
        i += 1;
    }
    assert(parts.deep_view() =~= agents.deep_view().map_values(
        |agent: AgentModel| json_agent(agent),
    ));
    let mut r = "[".to_string();
    r.append(workflow::join(&parts, ",").as_str());
    r.append("]");
    Ok(r)
}

// ---------------------------------------------------------------------------
// The text determines the agents
// ---------------------------------------------------------------------------

proof fn escaped_char_determines(c: char, x: Seq<char>, d: char, y: Seq<char>)
    requires
        escaped_char(c) + x == escaped_char(d) + y,
    ensures
        c == d,
        x == y,
{
    let whole = escaped_char(c) + x;
    assert(whole[0] == escaped_char(c)[0] && whole[0] == escaped_char(d)[0]);
    if whole[0] == '\\' {
        assert(whole[1] == escaped_char(c)[1] && whole[1] == escaped_char(d)[1]);
        if whole[1] == 'u' {
            assert(whole[4] == escaped_char(c)[4] && whole[4] == escaped_char(d)[4]);
            assert(whole[5] == escaped_char(c)[5] && whole[5] == escaped_char(d)[5]);
        }
    }
    assert(c == d);
    text::concat_cancels_left(escaped_char(c), x, y);
}

proof fn escaped_from_the_front(text: Seq<char>)
    requires
        text.len() > 0,
    ensures
        escaped(text) == escaped_char(text[0]) + escaped(text.drop_first()),
    decreases text.len(),
{
    if text.len() == 1 {
        assert(text.drop_last() =~= Seq::<char>::empty());
        assert(text.drop_first() =~= Seq::<char>::empty());
        assert(escaped(text) =~= escaped_char(text[0]) + escaped(text.drop_first()));
    } else {
        escaped_from_the_front(text.drop_last());
        assert(text.drop_last().drop_first() =~= text.drop_first().drop_last());
        assert(text.drop_first().last() == text.last());
        assert(escaped(text) =~= escaped_char(text[0]) + escaped(text.drop_first()));
    }
}

proof fn escaped_determines(s: Seq<char>, x: Seq<char>, t: Seq<char>, y: Seq<char>)
    requires
        escaped(s) + seq!['"'] + x == escaped(t) + seq!['"'] + y,
    ensures
        s == t,
        x == y,
    decreases s.len(),
{
    let whole = escaped(s) + seq!['"'] + x;
    if s.len() == 0 {
        if t.len() > 0 {
            escaped_from_the_front(t);
            assert(whole[0] == '"');
            assert(whole[0] == escaped_char(t[0])[0]);
        }
        assert(s =~= t);
        assert(whole =~= seq!['"'] + x);
        assert(whole =~= seq!['"'] + y);
        text::concat_cancels_left(seq!['"'], x, y);
    } else if t.len() == 0 {
        escaped_from_the_front(s);
        assert((escaped(t) + seq!['"'] + y)[0] == '"');
        assert(whole[0] == escaped_char(s[0])[0]);
    } else {
        escaped_from_the_front(s);
        escaped_from_the_front(t);
        let s1 = s.drop_first();
        let t1 = t.drop_first();
        assert(whole =~= escaped_char(s[0]) + (escaped(s1) + seq!['"'] + x));
        assert(whole =~= escaped_char(t[0]) + (escaped(t1) + seq!['"'] + y));
        escaped_char_determines(
            s[0],
            escaped(s1) + seq!['"'] + x,
            t[0],
            escaped(t1) + seq!['"'] + y,
        );
        escaped_determines(s1, x, t1, y);
        assert(s =~= seq![s[0]] + s1);
        assert(t =~= seq![t[0]] + t1);
    }
}

proof fn json_string_determines(s: Seq<char>, x: Seq<char>, t: Seq<char>, y: Seq<char>)
    requires
        json_string(s) + x == json_string(t) + y,
    ensures
        s == t,
        x == y,
{
    assert(json_string(s) + x =~= seq!['"'] + (escaped(s) + seq!['"'] + x));
    assert(json_string(t) + y =~= seq!['"'] + (escaped(t) + seq!['"'] + y));
    text::concat_cancels_left(
        seq!['"'],
        escaped(s) + seq!['"'] + x,
        escaped(t) + seq!['"'] + y,
    );
    escaped_determines(s, x, t, y);
}

proof fn json_agent_determines(a: AgentModel, x: Seq<char>, b: AgentModel, y: Seq<char>)
    requires
        json_agent(a) + x == json_agent(b) + y,
    ensures
        a == b,
        x == y,
{
    let open = "{\"name\":"@;
    let middle = ",\"contract_address\":"@;
    let close = "}"@;
    let a2 = json_string(a.contract_address) + (close + x);
    let b2 = json_string(b.contract_address) + (close + y);
    let a1 = json_string(a.name) + (middle + a2);
    let b1 = json_string(b.name) + (middle + b2);
    assert(json_agent(a) + x =~= open + a1);
    assert(json_agent(b) + y =~= open + b1);
    text::concat_cancels_left(open, a1, b1);
    json_string_determines(a.name, middle + a2, b.name, middle + b2);
    text::concat_cancels_left(middle, a2, b2);
    json_string_determines(a.contract_address, close + x, b.contract_address, close + y);
    text::concat_cancels_left(close, x, y);
}

/// The objects of an array, with a comma between neighbours.
spec fn json_items(agents: Seq<AgentModel>) -> Seq<char> {
    workflow::joined(agents.map_values(|agent: AgentModel| json_agent(agent)), ","@)
}

proof fn json_items_from_the_front(agents: Seq<AgentModel>)
    requires
        agents.len() > 0,
    ensures
        agents.len() == 1 ==> json_items(agents) == json_agent(agents[0]),
        agents.len() > 1 ==> json_items(agents) == json_agent(agents[0]) + ","@ + json_items(
            agents.drop_first(),
        ),
    decreases agents.len(),
{
    let write = |agent: AgentModel| json_agent(agent);
    let parts = agents.map_values(write);
    assert(parts.drop_last() =~= agents.drop_last().map_values(write));
    if agents.len() > 1 {
        let rest = agents.drop_first();
        assert(rest.map_values(write).drop_last() =~= rest.drop_last().map_values(write));
        json_items_from_the_front(agents.drop_last());
        assert(agents.drop_last().drop_first() =~= rest.drop_last());
        assert(json_items(agents) == json_items(agents.drop_last()) + ","@ + json_agent(
            agents.last(),
        ));
        if agents.len() > 2 {
            assert(json_items(rest) == json_items(rest.drop_last()) + ","@ + json_agent(
                agents.last(),
            ));
        } else {
            assert(json_items(rest) == json_agent(agents.last()));
        }
        assert(json_items(agents) =~= json_agent(agents[0]) + ","@ + json_items(rest));
    }
}

proof fn json_items_determine(a: Seq<AgentModel>, b: Seq<AgentModel>)
    requires
        json_items(a) + "]"@ == json_items(b) + "]"@,
    ensures
        a == b,
    decreases a.len(),
{
    reveal_strlit("]");
    reveal_strlit(",");
    reveal_strlit("{\"name\":");
    let whole = json_items(a) + "]"@;
    if a.len() == 0 {
        assert(whole[0] == ']');
        if b.len() > 0 {
            json_items_from_the_front(b);
            assert(json_agent(b[0])[0] == '{');
            assert((json_items(b) + "]"@)[0] == '{');
        }
        assert(a =~= b);
    } else if b.len() == 0 {
        json_items_from_the_front(a);
        assert(json_agent(a[0])[0] == '{');
        assert(whole[0] == '{');
        assert((json_items(b) + "]"@)[0] == ']');
    } else {
        json_items_from_the_front(a);
        json_items_from_the_front(b);
        let x = if a.len() == 1 { "]"@ } else { ","@ + json_items(a.drop_first()) + "]"@ };
        let y = if b.len() == 1 { "]"@ } else { ","@ + json_items(b.drop_first()) + "]"@ };
        assert(whole =~= json_agent(a[0]) + x);
        assert(whole =~= json_agent(b[0]) + y);
        json_agent_determines(a[0], x, b[0], y);
        if a.len() == 1 || b.len() == 1 {
            assert(x[0] == y[0]);
            assert(a.len() == 1 && b.len() == 1);
        } else {
            let a1 = json_items(a.drop_first()) + "]"@;
            let b1 = json_items(b.drop_first()) + "]"@;
            assert(x =~= ","@ + a1);
            assert(y =~= ","@ + b1);
            text::concat_cancels_left(","@, a1, b1);
            json_items_determine(a.drop_first(), b.drop_first());
        }
        assert(a =~= seq![a[0]] + a.drop_first());
        assert(b =~= seq![b[0]] + b.drop_first());
        assert(a =~= b);
    }
}

/// Nothing is lost in the JSON text: different lists of agents have different texts.
pub proof fn json_agents_determines_the_agents(a: Seq<AgentModel>, b: Seq<AgentModel>)
    requires
        json_agents(a) == json_agents(b),
    ensures
        a == b,
{
    assert(json_agents(a) =~= "["@ + (json_items(a) + "]"@));
    assert(json_agents(b) =~= "["@ + (json_items(b) + "]"@));
    text::concat_cancels_left("["@, json_items(a) + "]"@, json_items(b) + "]"@);
    json_items_determine(a, b);
}

/// The text of an agent list: nothing between the brackets where there is no agent; an object with
/// the name and then the address where there is one; and the objects of two lists, with a comma
/// between them, where the lists follow each other.
pub proof fn json_agents_by_parts(
    a: Seq<AgentModel>,
    x: Seq<char>,
    b: Seq<AgentModel>,
    y: Seq<char>,
    agent: AgentModel,
)
    ensures
        json_agents(Seq::empty()) == "[]"@,
        json_agents(seq![agent]) == "[{\"name\":"@ + json_string(agent.name)
            + ",\"contract_address\":"@ + json_string(agent.contract_address) + "}]"@,
        a.len() > 0 && b.len() > 0 && json_agents(a) == "["@ + x + "]"@ && json_agents(b) == "["@
            + y + "]"@ ==> json_agents(a + b) == "["@ + x + ","@ + y + "]"@,
{
    reveal_strlit("[]");
    reveal_strlit("[");
    reveal_strlit("]");
    reveal_strlit("{\"name\":");
    reveal_strlit("[{\"name\":");
    reveal_strlit("}");
    reveal_strlit("}]");
    let write = |one: AgentModel| json_agent(one);
    assert(Seq::<AgentModel>::empty().map_values(write) =~= Seq::empty());
    assert(json_agents(Seq::empty()) =~= "[]"@);
    assert(seq![agent].map_values(write) =~= seq![json_agent(agent)]);
    workflow::joining_by_parts(
        a.map_values(write),
        b.map_values(write),
        json_agent(agent),
        ","@,
    );
    assert(json_agents(seq![agent]) =~= "[{\"name\":"@ + json_string(agent.name)
        + ",\"contract_address\":"@ + json_string(agent.contract_address) + "}]"@);
    assert((a + b).map_values(write) =~= a.map_values(write) + b.map_values(write));
    if a.len() > 0 && b.len() > 0 && json_agents(a) == "["@ + x + "]"@ && json_agents(b) == "["@ + y
        + "]"@ {
        assert(json_agents(a).subrange(1, json_agents(a).len() - 1) =~= json_items(a));
        assert(("["@ + x + "]"@).subrange(1, json_agents(a).len() - 1) =~= x);
        assert(json_agents(b).subrange(1, json_agents(b).len() - 1) =~= json_items(b));
        assert(("["@ + y + "]"@).subrange(1, json_agents(b).len() - 1) =~= y);
        assert(json_agents(a + b) =~= "["@ + x + ","@ + y + "]"@);
    }
}

/// A text is quoted character by character, between quotation marks.
pub proof fn texts_are_quoted_by_characters(a: Seq<char>, b: Seq<char>, c: char)
    ensures
        json_string(a) == seq!['"'] + escaped(a) + seq!['"'],
        escaped(Seq::empty()).len() == 0,
        escaped(seq![c]) == escaped_char(c),
        escaped(a + b) == escaped(a) + escaped(b),
    decreases b.len(),
{
    assert(seq![c].drop_last() =~= Seq::<char>::empty());
    assert(escaped(seq![c].drop_last()) =~= Seq::<char>::empty());
    assert(escaped(seq![c]) =~= escaped_char(c));
    if b.len() == 0 {
        assert(a + b =~= a);
        assert(escaped(a + b) =~= escaped(a) + escaped(b));
    } else {
        texts_are_quoted_by_characters(a, b.drop_last(), c);
        assert((a + b).drop_last() =~= a + b.drop_last());
        assert(escaped(a + b) =~= escaped(a) + escaped(b));
    }
}

} // verus!
