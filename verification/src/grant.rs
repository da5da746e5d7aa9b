//! The permission vocabulary that a capability token carries.

use vstd::prelude::*;
use vstd::string::*;
use crate::json::{json_text_array, render_object, render_text_array, texts_of, Member, ObjectWriter};
use crate::text::{bool_str, bool_text, json_string, quoted};

verus! {

/// What a token allows its bearer to do, scoped to one room. A field that
/// is `None` is unset: the permission is denied and the field is left out
/// of the signed payload.
#[derive(Debug)]
pub struct VideoGrant {
    pub room_create: Option<bool>,
    pub room_list: Option<bool>,
    pub room_record: Option<bool>,
    pub room_admin: Option<bool>,
    pub room_join: Option<bool>,
    pub room: Option<String>,
    pub can_publish: Option<bool>,
    pub can_subscribe: Option<bool>,
    pub can_publish_data: Option<bool>,
    pub can_publish_sources: Option<Vec<String>>,
    pub can_update_own_metadata: Option<bool>,
    pub ingress_admin: Option<bool>,
    pub hidden: Option<bool>,
    pub recorder: Option<bool>,
    pub agent: Option<bool>,
}

/// The mathematical value of a grant.
pub struct GrantView {
    pub room_create: Option<bool>,
    pub room_list: Option<bool>,
    pub room_record: Option<bool>,
    pub room_admin: Option<bool>,
    pub room_join: Option<bool>,
    pub room: Option<Seq<char>>,
    pub can_publish: Option<bool>,
    pub can_subscribe: Option<bool>,
    pub can_publish_data: Option<bool>,
    pub can_publish_sources: Option<Seq<Seq<char>>>,
    pub can_update_own_metadata: Option<bool>,
    pub ingress_admin: Option<bool>,
    pub hidden: Option<bool>,
    pub recorder: Option<bool>,
    pub agent: Option<bool>,
}

/// The view of an optional string.
pub open spec fn opt_text(o: Option<String>) -> Option<Seq<char>> {
    match o {
        Some(s) => Some(s@),
        None => None,
    }
}

/// The view of an optional list of strings.
pub open spec fn opt_texts(o: Option<Vec<String>>) -> Option<Seq<Seq<char>>> {
    match o {
        Some(v) => Some(texts_of(v@)),
        None => None,
    }
}

impl View for VideoGrant {
    type V = GrantView;

    open spec fn view(&self) -> GrantView {
        GrantView {
            room_create: self.room_create,
            room_list: self.room_list,
            room_record: self.room_record,
            room_admin: self.room_admin,
            room_join: self.room_join,
            room: opt_text(self.room),
            can_publish: self.can_publish,
            can_subscribe: self.can_subscribe,
            can_publish_data: self.can_publish_data,
            can_publish_sources: opt_texts(self.can_publish_sources),
            can_update_own_metadata: self.can_update_own_metadata,
            ingress_admin: self.ingress_admin,
            hidden: self.hidden,
            recorder: self.recorder,
            agent: self.agent,
        }
    }
}

/// The grant with every field unset.
pub open spec fn unset_grant() -> GrantView {
    GrantView {
        room_create: None,
        room_list: None,
        room_record: None,
        room_admin: None,
        room_join: None,
        room: None,
        can_publish: None,
        can_subscribe: None,
        can_publish_data: None,
        can_publish_sources: None,
        can_update_own_metadata: None,
        ingress_admin: None,
        hidden: None,
        recorder: None,
        agent: None,
    }
}

impl Default for VideoGrant {
    fn default() -> (r: Self)
        ensures
            r@ == unset_grant(),
    {
        VideoGrant {
            room_create: None,
            room_list: None,
            room_record: None,
            room_admin: None,
            room_join: None,
            room: None,
            can_publish: None,
            can_subscribe: None,
            can_publish_data: None,
            can_publish_sources: None,
            can_update_own_metadata: None,
            ingress_admin: None,
            hidden: None,
            recorder: None,
            agent: None,
        }
    }
}

/// A copy of an optional string.
pub fn clone_opt_text(o: &Option<String>) -> (r: Option<String>)
    ensures
        opt_text(r) == opt_text(*o),
{
    match o {
        Some(s) => Some(s.clone()),
        None => None,
    }
}

/// A copy of a list of strings.
pub fn clone_texts(v: &Vec<String>) -> (r: Vec<String>)
    ensures
        texts_of(r@) == texts_of(v@),
{
    let mut out: Vec<String> = Vec::new();
    let mut i: usize = 0;
    while i < v.len()
        invariant
            i <= v.len(),
            out@.len() == i,
            forall|k: int| 0 <= k < i ==> (#[trigger] out@[k])@ == v@[k]@,
        decreases v.len() - i,
    {
        out.push(v[i].clone());
        i += 1;
    }
    assert(texts_of(out@) =~= texts_of(v@));
    out
}

impl Clone for VideoGrant {
    fn clone(&self) -> (r: Self)
        ensures
            r@ == self@,
    {
        let sources = match &self.can_publish_sources {
            Some(v) => Some(clone_texts(v)),
            None => None,
        };
        VideoGrant {
            room_create: self.room_create,
            room_list: self.room_list,
            room_record: self.room_record,
            room_admin: self.room_admin,
            room_join: self.room_join,
            room: clone_opt_text(&self.room),
            can_publish: self.can_publish,
            can_subscribe: self.can_subscribe,
            can_publish_data: self.can_publish_data,
            can_publish_sources: sources,
            can_update_own_metadata: self.can_update_own_metadata,
            ingress_admin: self.ingress_admin,
            hidden: self.hidden,
            recorder: self.recorder,
            agent: self.agent,
        }
    }
}

/// The member that a flag contributes to a payload: none while unset.
pub open spec fn flag_member(key: Seq<char>, v: Option<bool>) -> Seq<Member> {
    match v {
        Some(b) => seq![Member { key, value: bool_text(b) }],
        None => Seq::empty(),
    }
}

/// The member that an optional string contributes: none while unset.
pub open spec fn text_member(key: Seq<char>, v: Option<Seq<char>>) -> Seq<Member> {
    match v {
        Some(s) => seq![Member { key, value: quoted(s) }],
        None => Seq::empty(),
    }
}

/// The member that an optional list of strings contributes: none while
/// unset.
pub open spec fn list_member(key: Seq<char>, v: Option<Seq<Seq<char>>>) -> Seq<Member> {
    match v {
        Some(items) => seq![Member { key, value: render_text_array(items) }],
        None => Seq::empty(),
    }
}

/// The members of a grant's payload, in the order in which they are
/// written. Each set field contributes one member and each unset field
/// none.
pub open spec fn grant_members(g: GrantView) -> Seq<Member> {
    Seq::<Member>::empty() + flag_member("roomCreate"@, g.room_create) + flag_member(
        "roomList"@,
        g.room_list,
    ) + flag_member("roomRecord"@, g.room_record) + flag_member("roomAdmin"@, g.room_admin)
        + flag_member("roomJoin"@, g.room_join) + text_member("room"@, g.room) + flag_member(
        "canPublish"@,
        g.can_publish,
    ) + flag_member("canSubscribe"@, g.can_subscribe) + flag_member(
        "canPublishData"@,
        g.can_publish_data,
    ) + list_member("canPublishSources"@, g.can_publish_sources) + flag_member(
        "canUpdateOwnMetadata"@,
        g.can_update_own_metadata,
    ) + flag_member("ingressAdmin"@, g.ingress_admin) + flag_member("hidden"@, g.hidden)
        + flag_member("recorder"@, g.recorder) + flag_member("agent"@, g.agent)
}

/// The JSON text of a grant's payload.
pub open spec fn grant_text(g: GrantView) -> Seq<char> {
    render_object(grant_members(g))
}

/// How many of an optional value's members there are: one if set.
pub open spec fn set_count<T>(v: Option<T>) -> nat {
    if v is Some {
        1
    } else {
        0
    }
}

/// The number of fields of a grant that are set.
pub open spec fn fields_set(g: GrantView) -> nat {
    set_count(g.room_create) + set_count(g.room_list) + set_count(g.room_record) + set_count(
        g.room_admin,
    ) + set_count(g.room_join) + set_count(g.room) + set_count(g.can_publish) + set_count(
        g.can_subscribe,
    ) + set_count(g.can_publish_data) + set_count(g.can_publish_sources) + set_count(
        g.can_update_own_metadata,
    ) + set_count(g.ingress_admin) + set_count(g.hidden) + set_count(g.recorder) + set_count(
        g.agent,
    )
}

/// A grant's payload holds exactly one member for each field that is set:
/// an unset field is left out, never written as `false` or `null`. The
/// payload of the all-unset grant is the empty object.
pub proof fn lemma_unset_fields_are_omitted(g: GrantView)
    ensures
        grant_members(g).len() == fields_set(g),
        grant_members(unset_grant()) =~= Seq::<Member>::empty(),
        grant_text(unset_grant()) =~= seq!['{', '}'],
{
}

pub(crate) fn put_flag(w: &mut ObjectWriter, key: &str, v: Option<bool>)
    requires
        old(w).wf(),
    ensures
        final(w).wf(),
        final(w).members() == old(w).members() + flag_member(key@, v),
{
    match v {
        Some(b) => {
            w.put(key, bool_str(b));
            assert(w.members() =~= old(w).members() + flag_member(key@, v));
        },
        None => {
            assert(w.members() =~= old(w).members() + flag_member(key@, v));
        },
    }
}

pub(crate) fn put_text(w: &mut ObjectWriter, key: &str, v: &Option<String>)
    requires
        old(w).wf(),
    ensures
        final(w).wf(),
        final(w).members() == old(w).members() + text_member(key@, opt_text(*v)),
{
    match v {
        Some(s) => {
            let literal = json_string(s.as_str());
            w.put(key, literal.as_str());
            assert(w.members() =~= old(w).members() + text_member(key@, opt_text(*v)));
        },
        None => {
            assert(w.members() =~= old(w).members() + text_member(key@, opt_text(*v)));
        },
    }
}

fn put_list(w: &mut ObjectWriter, key: &str, v: &Option<Vec<String>>)
    requires
        old(w).wf(),
    ensures
        final(w).wf(),
        final(w).members() == old(w).members() + list_member(key@, opt_texts(*v)),
{
    match v {
        Some(items) => {
            let array = json_text_array(items);
            w.put(key, array.as_str());
            assert(w.members() =~= old(w).members() + list_member(key@, opt_texts(*v)));
        },
        None => {
            assert(w.members() =~= old(w).members() + list_member(key@, opt_texts(*v)));
        },
    }
}

/// Writes a grant's payload as JSON: the set fields in order, under their
/// camel-case names.
pub fn grant_json(g: &VideoGrant) -> (r: String)
    ensures
        r@ == grant_text(g@),
{
    let mut w = ObjectWriter::new();
    put_flag(&mut w, "roomCreate", g.room_create);
    put_flag(&mut w, "roomList", g.room_list);
    put_flag(&mut w, "roomRecord", g.room_record);
    put_flag(&mut w, "roomAdmin", g.room_admin);
    put_flag(&mut w, "roomJoin", g.room_join);
    put_text(&mut w, "room", &g.room);
    put_flag(&mut w, "canPublish", g.can_publish);
    put_flag(&mut w, "canSubscribe", g.can_subscribe);
    put_flag(&mut w, "canPublishData", g.can_publish_data);
    put_list(&mut w, "canPublishSources", &g.can_publish_sources);
    put_flag(&mut w, "canUpdateOwnMetadata", g.can_update_own_metadata);
    put_flag(&mut w, "ingressAdmin", g.ingress_admin);
    put_flag(&mut w, "hidden", g.hidden);
    put_flag(&mut w, "recorder", g.recorder);
    put_flag(&mut w, "agent", g.agent);
    w.finish()
}

} // verus!
