//! Telemetry tags: string-keyed key/value records attached to requests and
//! error reports. Later writes to a key win, as they do for a hash map.

use vstd::prelude::*;

verus! {

use crate::text::str_eq;

/// The mapping described by a list of key/value pairs: later pairs override
/// earlier ones.
pub open spec fn kv_map(s: Seq<(String, String)>) -> Map<Seq<char>, Seq<char>>
    decreases s.len(),
{
    if s.len() == 0 {
        Map::empty()
    } else {
        kv_map(s.drop_last()).insert(s.last().0@, s.last().1@)
    }
}

/// The mathematical shape of `Tags`: three string-to-string mappings.
pub struct TagsView {
    pub tags: Map<Seq<char>, Seq<char>>,
    pub extra: Map<Seq<char>, Seq<char>>,
    pub metric: Map<Seq<char>, Seq<char>>,
}

/// Tag data for telemetry: `tags` go on metrics and error events, `extra`
/// only on error events, `metric` only on metrics.
pub struct Tags {
    pub tags: Vec<(String, String)>,
    pub extra: Vec<(String, String)>,
    pub metric: Vec<(String, String)>,
}

impl View for Tags {
    type V = TagsView;

    open spec fn view(&self) -> TagsView {
        TagsView { tags: kv_map(self.tags@), extra: kv_map(self.extra@), metric: kv_map(self.metric@) }
    }
}

/// `kv_map` after appending one pair: the mapping with that pair written.
pub proof fn lemma_kv_map_push(s: Seq<(String, String)>, p: (String, String))
    ensures
        kv_map(s.push(p)) == kv_map(s).insert(p.0@, p.1@),
{
    assert(s.push(p).drop_last() =~= s);
}

fn kv_push(v: &mut Vec<(String, String)>, k: &str, val: &str)
    ensures
        kv_map(final(v)@) == kv_map(old(v)@).insert(k@, val@),
{
    let pair = (k.to_owned(), val.to_owned());
    proof {
        lemma_kv_map_push(v@, pair);
    }
    v.push(pair);
}

fn kv_lookup(v: &Vec<(String, String)>, k: &str) -> (r: Option<String>)
    ensures
        match r {
            Some(val) => kv_map(v@).contains_key(k@) && val@ == kv_map(v@)[k@],
            None => !kv_map(v@).contains_key(k@),
        },
{
    let mut i: usize = v.len();
    assert(v@.take(i as int) =~= v@);
    while i > 0
        invariant
            0 <= i <= v.len(),
            kv_map(v@).contains_key(k@) == kv_map(v@.take(i as int)).contains_key(k@),
            kv_map(v@).contains_key(k@) ==> kv_map(v@)[k@] == kv_map(v@.take(i as int))[k@],
        decreases i,
    {
        i -= 1;
        assert(v@.take(i as int + 1).drop_last() =~= v@.take(i as int));
        assert(v@.take(i as int + 1).last() == v@[i as int]);
        if str_eq(v[i].0.as_str(), k) {
            let val = v[i].1.clone();
            return Some(val);
        }
    }
    assert(v@.take(0) =~= Seq::<(String, String)>::empty());
    None
}

impl Tags {
    /// A record with nothing in it.
    pub fn new() -> (r: Tags)
        ensures
            r@.tags == Map::<Seq<char>, Seq<char>>::empty(),
            r@.extra == Map::<Seq<char>, Seq<char>>::empty(),
            r@.metric == Map::<Seq<char>, Seq<char>>::empty(),
    {
        Tags { tags: Vec::new(), extra: Vec::new(), metric: Vec::new() }
    }

    /// Writes a tag.
    pub fn add_tag(&mut self, k: &str, v: &str)
        ensures
            final(self)@.tags == old(self)@.tags.insert(k@, v@),
            final(self)@.extra == old(self)@.extra,
            final(self)@.metric == old(self)@.metric,
    {
        kv_push(&mut self.tags, k, v);
    }

    /// Writes an extra (error-event only) entry.
    pub fn add_extra(&mut self, k: &str, v: &str)
        ensures
            final(self)@.extra == old(self)@.extra.insert(k@, v@),
            final(self)@.tags == old(self)@.tags,
            final(self)@.metric == old(self)@.metric,
    {
        kv_push(&mut self.extra, k, v);
    }

    /// Writes a metric-only entry.
    pub fn add_metric(&mut self, k: &str, v: &str)
        ensures
            final(self)@.metric == old(self)@.metric.insert(k@, v@),
            final(self)@.tags == old(self)@.tags,
            final(self)@.extra == old(self)@.extra,
    {
        kv_push(&mut self.metric, k, v);
    }

    /// The value last written for tag `k`, if any.
    pub fn get_tag(&self, k: &str) -> (r: Option<String>)
        ensures
            match r {
                Some(val) => self@.tags.contains_key(k@) && val@ == self@.tags[k@],
                None => !self@.tags.contains_key(k@),
            },
    {
        kv_lookup(&self.tags, k)
    }

    /// The value last written for extra entry `k`, if any.
    pub fn get_extra(&self, k: &str) -> (r: Option<String>)
        ensures
            match r {
                Some(val) => self@.extra.contains_key(k@) && val@ == self@.extra[k@],
                None => !self@.extra.contains_key(k@),
            },
    {
        kv_lookup(&self.extra, k)
    }

    /// The value last written for metric entry `k`, if any.
    pub fn get_metric(&self, k: &str) -> (r: Option<String>)
        ensures
            match r {
                Some(val) => self@.metric.contains_key(k@) && val@ == self@.metric[k@],
                None => !self@.metric.contains_key(k@),
            },
    {
        kv_lookup(&self.metric, k)
    }
}

impl Default for Tags {
    /// A record with nothing in it.
    fn default() -> (r: Tags)
        ensures
            r@.tags == Map::<Seq<char>, Seq<char>>::empty(),
            r@.extra == Map::<Seq<char>, Seq<char>>::empty(),
            r@.metric == Map::<Seq<char>, Seq<char>>::empty(),
    {
        Tags::new()
    }
}

} // verus!
