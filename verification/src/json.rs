//! JSON objects as ordered lists of members, and a writer that produces
//! their text.

use vstd::prelude::*;
use vstd::string::*;
use crate::text::{json_string, quoted};

verus! {

/// One member of a JSON object: its key, and its value as JSON text.
pub struct Member {
    pub key: Seq<char>,
    pub value: Seq<char>,
}

/// The text of one member: the quoted key, a colon, the value.
pub open spec fn render_member(m: Member) -> Seq<char> {
    quoted(m.key) + seq![':'] + m.value
}

/// The members' texts in order, separated by commas.
pub open spec fn render_members(ms: Seq<Member>) -> Seq<char>
    decreases ms.len(),
{
    if ms.len() == 0 {
        Seq::empty()
    } else if ms.len() == 1 {
        render_member(ms[0])
    } else {
        render_members(ms.drop_last()) + seq![','] + render_member(ms.last())
    }
}

/// The text of the JSON object with these members.
pub open spec fn render_object(ms: Seq<Member>) -> Seq<char> {
    seq!['{'] + render_members(ms) + seq!['}']
}

/// The quoted texts in order, separated by commas.
pub open spec fn render_texts(items: Seq<Seq<char>>) -> Seq<char>
    decreases items.len(),
{
    if items.len() == 0 {
        Seq::empty()
    } else if items.len() == 1 {
        quoted(items[0])
    } else {
        render_texts(items.drop_last()) + seq![','] + quoted(items.last())
    }
}

/// The text of the JSON array of these strings.
pub open spec fn render_text_array(items: Seq<Seq<char>>) -> Seq<char> {
    seq!['['] + render_texts(items) + seq![']']
}

/// Whether the members hold `value` under `key`, and nothing else under it.
pub open spec fn carries(ms: Seq<Member>, key: Seq<char>, value: Seq<char>) -> bool {
    &&& exists|i: int| 0 <= i < ms.len() && #[trigger] ms[i] == (Member { key, value })
    &&& forall|i: int| 0 <= i < ms.len() && (#[trigger] ms[i]).key == key ==> ms[i].value == value
}

/// Whether no member stands under `key`.
pub open spec fn lacks(ms: Seq<Member>, key: Seq<char>) -> bool {
    forall|i: int| 0 <= i < ms.len() ==> (#[trigger] ms[i]).key != key
}

/// The views of a list of strings.
pub open spec fn texts_of(v: Seq<String>) -> Seq<Seq<char>> {
    Seq::new(v.len(), |i: int| v[i]@)
}

/// Writes a list of strings as a JSON array.
pub fn json_text_array(items: &Vec<String>) -> (r: String)
    ensures
        r@ == render_text_array(texts_of(items@)),
{
    proof {
        reveal_strlit("[");
        reveal_strlit("]");
        reveal_strlit(",");
    }
    let mut out = String::from_str("[");
    let mut i: usize = 0;
    while i < items.len()
        invariant
            i <= items.len(),
            out@ == seq!['['] + render_texts(texts_of(items@).subrange(0, i as int)),
        decreases items.len() - i,
    {
        let ghost done = texts_of(items@).subrange(0, i as int);
        let ghost next = texts_of(items@).subrange(0, i + 1);
        if i > 0 {
            out.append(",");
        }
        let literal = json_string(items[i].as_str());
        out.append(literal.as_str());
        proof {
            assert(next.drop_last() =~= done);
            assert(next.last() == items@[i as int]@);
            reveal_strlit(",");
            assert(out@ =~= seq!['['] + render_texts(next));
        }
        i += 1;
    }
    assert(texts_of(items@).subrange(0, i as int) =~= texts_of(items@));
    out.append("]");
    assert(out@ =~= render_text_array(texts_of(items@)));
    out
}

/// Builds the text of a JSON object, one member after another.
pub struct ObjectWriter {
    text: String,
    empty: bool,
    members: Ghost<Seq<Member>>,
}

impl ObjectWriter {
    /// The members written so far.
    pub closed spec fn members(&self) -> Seq<Member> {
        self.members@
    }

    /// The text so far is the opening brace and the members written.
    pub closed spec fn wf(&self) -> bool {
        &&& self.text@ == seq!['{'] + render_members(self.members@)
        &&& self.empty == (self.members@.len() == 0)
    }

    /// A writer that has written no member yet.
    pub fn new() -> (w: Self)
        ensures
            w.wf(),
            w.members() == Seq::<Member>::empty(),
    {
        proof {
            reveal_strlit("{");
        }
        let w = ObjectWriter {
            text: String::from_str("{"),
            empty: true,
            members: Ghost(Seq::empty()),
        };
        assert(w.text@ =~= seq!['{'] + render_members(w.members@));
        w
    }

    /// Writes one more member; `value` is taken as JSON text.
    pub fn put(&mut self, key: &str, value: &str)
        requires
            old(self).wf(),
        ensures
            final(self).wf(),
            final(self).members() == old(self).members().push(
                Member { key: key@, value: value@ },
            ),
    {
        proof {
            reveal_strlit(",");
            reveal_strlit(":");
        }
        let ghost before = self.members@;
        let ghost added = Member { key: key@, value: value@ };
        if !self.empty {
            self.text.append(",");
        }
        let quoted_key = json_string(key);
        self.text.append(quoted_key.as_str());
        self.text.append(":");
        self.text.append(value);
        self.empty = false;
        self.members = Ghost(before.push(added));
        proof {
            assert(before.push(added).drop_last() =~= before);
            assert(self.text@ =~= seq!['{'] + render_members(before.push(added)));
        }
    }

    /// Closes the object and hands out its text.
    pub fn finish(self) -> (r: String)
        requires
            self.wf(),
        ensures
            r@ == render_object(self.members()),
    {
        proof {
            reveal_strlit("}");
        }
        let mut text = self.text;
        text.append("}");
        assert(text@ =~= render_object(self.members@));
        text
    }
}

} // verus!
