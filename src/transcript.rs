use vstd::prelude::*;
use vstd::string::StringExecFns;
use crate::message::Prompt;
use crate::json::{json_quote, json_quoted};

verus! {

/// The parts laid end to end with `sep` between each two neighbours.
pub open spec fn joined(parts: Seq<Seq<char>>, sep: Seq<char>) -> Seq<char>
    decreases parts.len(),
{
    if parts.len() == 0 {
        Seq::empty()
    } else if parts.len() == 1 {
        parts[0]
    } else {
        joined(parts.drop_last(), sep) + sep + parts.last()
    }
}

/// A conversation as (role, content) text pairs, in order.
pub open spec fn turns(ps: Seq<Prompt>) -> Seq<(Seq<char>, Seq<char>)> {
    ps.map_values(|p: Prompt| (p.role@, p.content@))
}

/// One transcript line: `role: content`.
pub open spec fn prompt_line(t: (Seq<char>, Seq<char>)) -> Seq<char> {
    t.0 + ": "@ + t.1
}

/// A conversation flattened into one prompt text, one line per message, in order.
pub open spec fn transcript(ts: Seq<(Seq<char>, Seq<char>)>) -> Seq<char> {
    joined(ts.map_values(|t: (Seq<char>, Seq<char>)| prompt_line(t)), "\n"@)
}

/// One chat message as a JSON object: `{"role":...,"content":...}`.
pub open spec fn message_object(t: (Seq<char>, Seq<char>)) -> Seq<char> {
    "{\"role\":"@ + json_quoted(t.0) + ",\"content\":"@ + json_quoted(t.1) + "}"@
}

/// A conversation as a JSON array of chat message objects, one for one, in order.
pub open spec fn message_array(ts: Seq<(Seq<char>, Seq<char>)>) -> Seq<char> {
    "["@ + joined(ts.map_values(|t: (Seq<char>, Seq<char>)| message_object(t)), ","@) + "]"@
}

proof fn lemma_joined_step(parts: Seq<Seq<char>>, sep: Seq<char>, i: int)
    requires
        0 <= i < parts.len(),
    ensures
        joined(parts.take(i + 1), sep) == if i == 0 {
            parts[0]
        } else {
            joined(parts.take(i), sep) + sep + parts[i]
        },
{
    assert(parts.take(i + 1).drop_last() =~= parts.take(i));
}

/// Joins the prompts into one transcript text, one `role: content` line per message.
pub fn format_prompts(prompts: &Vec<Prompt>) -> (r: String)
    ensures
        r@ == transcript(turns(prompts@)),
{
    let ghost lines = turns(prompts@).map_values(|t: (Seq<char>, Seq<char>)| prompt_line(t));
    let mut out = String::new();
    let mut i: usize = 0;
    while i < prompts.len()
        invariant
            0 <= i <= prompts.len(),
            lines == turns(prompts@).map_values(|t: (Seq<char>, Seq<char>)| prompt_line(t)),
            out@ == joined(lines.take(i as int), "\n"@),
        decreases prompts.len() - i,
    {
        proof {
            lemma_joined_step(lines, "\n"@, i as int);
        }
        if i > 0 {
            out.append("\n");
        }
        out.append(prompts[i].role.as_str());
        out.append(": ");
        out.append(prompts[i].content.as_str());
        i = i + 1;
    }
    proof {
        assert(lines.take(i as int) =~= lines);
    }
    out
}

/// Writes the prompts as a JSON array of `{"role","content"}` objects, one for one.
pub fn convert_prompts(prompts: &Vec<Prompt>) -> (r: String)
    ensures
        r@ == message_array(turns(prompts@)),
{
    let ghost objects = turns(prompts@).map_values(|t: (Seq<char>, Seq<char>)| message_object(t));
    let mut out = String::from_str("[");
    let mut i: usize = 0;
    while i < prompts.len()
        invariant
            0 <= i <= prompts.len(),
            objects == turns(prompts@).map_values(|t: (Seq<char>, Seq<char>)| message_object(t)),
            out@ == "["@ + joined(objects.take(i as int), ","@),
        decreases prompts.len() - i,
    {
        proof {
            lemma_joined_step(objects, ","@, i as int);
        }
        if i > 0 {
            out.append(",");
        }
        out.append("{\"role\":");
        let role = json_quote(prompts[i].role.as_str());
        out.append(role.as_str());
        out.append(",\"content\":");
        let content = json_quote(prompts[i].content.as_str());
        out.append(content.as_str());
        out.append("}");
        i = i + 1;
    }
    proof {
        assert(objects.take(i as int) =~= objects);
    }
    out.append("]");
    out
}

proof fn lemma_joined_prefix(parts: Seq<Seq<char>>, sep: Seq<char>, n: int)
    requires
        1 <= n <= parts.len(),
    ensures
        joined(parts.take(n), sep).len() <= joined(parts, sep).len(),
        joined(parts, sep).subrange(0, joined(parts.take(n), sep).len() as int) == joined(parts.take(n), sep),
    decreases parts.len() - n,
{
    if n == parts.len() {
        assert(parts.take(n) =~= parts);
        assert(joined(parts, sep).subrange(0, joined(parts, sep).len() as int) =~= joined(parts, sep));
    } else {
        let shorter = parts.drop_last();
        lemma_joined_prefix(shorter, sep, n);
        assert(shorter.take(n) =~= parts.take(n));
        let whole = joined(parts, sep);
        let mid = joined(shorter, sep);
        let head = joined(parts.take(n), sep);
        assert(whole == mid + sep + parts.last());
        assert(whole.subrange(0, head.len() as int) =~= mid.subrange(0, head.len() as int));
    }
}

/// Where line `i` of the transcript of `ts` begins.
pub open spec fn line_start(ts: Seq<(Seq<char>, Seq<char>)>, i: int) -> int {
    if i == 0 {
        0
    } else {
        transcript(ts.take(i)).len() as int + 1
    }
}

/// Where the content of message `i` sits in the transcript of `ts`.
pub open spec fn content_start(ts: Seq<(Seq<char>, Seq<char>)>, i: int) -> int {
    line_start(ts, i) + ts[i].0.len() + 2
}

/// Flattening a conversation into one transcript keeps every message's role and
/// content character for character, each at its place in the text.
pub proof fn lemma_transcript_keeps_contents(ts: Seq<(Seq<char>, Seq<char>)>, i: int)
    requires
        0 <= i < ts.len(),
    ensures
        content_start(ts, i) + ts[i].1.len() <= transcript(ts).len(),
        transcript(ts).subrange(line_start(ts, i), line_start(ts, i) + ts[i].0.len()) == ts[i].0,
        transcript(ts).subrange(content_start(ts, i), content_start(ts, i) + ts[i].1.len()) == ts[i].1,
{
    reveal_strlit("\n");
    reveal_strlit(": ");
    let lines = ts.map_values(|t: (Seq<char>, Seq<char>)| prompt_line(t));
    assert(ts.take(i).map_values(|t: (Seq<char>, Seq<char>)| prompt_line(t)) =~= lines.take(i));
    lemma_joined_step(lines, "\n"@, i);
    lemma_joined_prefix(lines, "\n"@, i + 1);
    let head = joined(lines.take(i + 1), "\n"@);
    let whole = transcript(ts);
    let b = line_start(ts, i);
    let c = content_start(ts, i);
    assert(lines[i] == ts[i].0 + ": "@ + ts[i].1);
    assert(head.len() == b + lines[i].len());
    assert(head.subrange(b, b + lines[i].len()) =~= lines[i]);
    assert(whole.subrange(b, b + ts[i].0.len()) =~= head.subrange(b, b + ts[i].0.len()));
    assert(whole.subrange(c, c + ts[i].1.len()) =~= head.subrange(c, c + ts[i].1.len()));
    assert(lines[i].subrange(0, ts[i].0.len() as int) =~= ts[i].0);
    assert(lines[i].subrange(ts[i].0.len() as int + 2, lines[i].len() as int) =~= ts[i].1);
    assert(head.subrange(b, b + ts[i].0.len()) =~= lines[i].subrange(0, ts[i].0.len() as int));
    assert(head.subrange(c, c + ts[i].1.len()) =~= lines[i].subrange(ts[i].0.len() as int + 2, lines[i].len() as int));
}

} // verus!
