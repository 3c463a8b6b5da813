//! Object tags: a string-to-string map with unique keys, written as a
//! `<tags>` element.
use vstd::prelude::*;

use crate::text::{push_str, utf8};

verus! {

/// One key-value tag of a map object.
#[derive(Debug, Clone)]
pub struct Tag {
    pub key: String,
    pub value: String,
}

/// The element of one tag: `<t k="key">value</t>`.
pub open spec fn tag_xml(key: Seq<char>, value: Seq<char>) -> Seq<u8> {
    utf8("<t k=\""@) + utf8(key) + utf8("\">"@) + utf8(value) + utf8("</t>"@)
}

impl Tag {
    /// A tag with key `k` and value `v`.
    pub fn new(k: String, v: String) -> (r: Tag)
        ensures
            r.key@ == k@,
            r.value@ == v@,
    {
        Tag { key: k, value: v }
    }

    /// The tag's element, `<t k="key">value</t>`.
    pub fn to_xml(&self) -> (r: Vec<u8>)
        ensures
            r@ == tag_xml(self.key@, self.value@),
    {
        let mut out: Vec<u8> = Vec::new();
        push_str(&mut out, "<t k=\"");
        push_str(&mut out, self.key.as_str());
        push_str(&mut out, "\">");
        push_str(&mut out, self.value.as_str());
        push_str(&mut out, "</t>");
        assert(out@ =~= tag_xml(self.key@, self.value@));
        out
    }
}

/// The tags of an object, in the order their keys were first added.
#[derive(Debug, Clone)]
pub struct Tags {
    entries: Vec<Tag>,
}

/// No key stands twice.
pub open spec fn keys_unique(s: Seq<(Seq<char>, Seq<char>)>) -> bool {
    forall|i: int, j: int| 0 <= i < j < s.len() ==> #[trigger] s[i].0 != #[trigger] s[j].0
}

/// Whether some tag has key `k`.
pub open spec fn has_key(s: Seq<(Seq<char>, Seq<char>)>, k: Seq<char>) -> bool {
    exists|i: int| 0 <= i < s.len() && #[trigger] s[i].0 == k
}

/// The tags after setting key `k` to `v`: the value of an existing key is
/// replaced in place, a new key is added at the end.
pub open spec fn tags_insert(s: Seq<(Seq<char>, Seq<char>)>, k: Seq<char>, v: Seq<char>) -> Seq<
    (Seq<char>, Seq<char>),
> {
    if has_key(s, k) {
        let i = choose|i: int| 0 <= i < s.len() && #[trigger] s[i].0 == k;
        s.update(i, (k, v))
    } else {
        s.push((k, v))
    }
}

/// The elements of a sequence of tags, one after the other.
pub open spec fn tag_elements(s: Seq<(Seq<char>, Seq<char>)>) -> Seq<u8>
    decreases s.len(),
{
    if s.len() == 0 {
        seq![]
    } else {
        tag_elements(s.drop_last()) + tag_xml(s.last().0, s.last().1)
    }
}

/// The `<tags>` element of a sequence of tags, or nothing when it is empty.
pub open spec fn tags_xml(s: Seq<(Seq<char>, Seq<char>)>) -> Seq<u8> {
    if s.len() == 0 {
        seq![]
    } else {
        utf8("<tags>"@) + tag_elements(s) + utf8("</tags>"@)
    }
}

impl View for Tags {
    type V = Seq<(Seq<char>, Seq<char>)>;

    closed spec fn view(&self) -> Seq<(Seq<char>, Seq<char>)> {
        self.entries@.map_values(|t: Tag| (t.key@, t.value@))
    }
}

impl Tags {
    /// The tags are a map: no key stands twice.
    pub open spec fn wf(&self) -> bool {
        keys_unique(self@)
    }

    /// No tags.
    pub fn new() -> (r: Tags)
        ensures
            r@ == Seq::<(Seq<char>, Seq<char>)>::empty(),
            r.wf(),
    {
        let r = Tags { entries: Vec::new() };
        assert(r@ =~= Seq::<(Seq<char>, Seq<char>)>::empty());
        r
    }

    /// Number of tags.
    pub fn len(&self) -> (r: usize)
        ensures
            r == self@.len(),
    {
        self.entries.len()
    }

    /// Whether there are no tags.
    pub fn is_empty(&self) -> (r: bool)
        ensures
            r == (self@.len() == 0),
    {
        self.entries.len() == 0
    }

    /// The value of key `k`, if it is set.
    pub fn get(&self, k: &String) -> (r: Option<&String>)
        requires
            self.wf(),
        ensures
            r is Some <==> has_key(self@, k@),
            r matches Some(v) ==> exists|i: int|
                0 <= i < self@.len() && #[trigger] self@[i] == (k@, v@),
    {
        let i = self.find_key(k);
        if i < self.entries.len() {
            assert(self@[i as int] == (k@, self.entries[i as int].value@));
            Some(&self.entries[i].value)
        } else {
            None
        }
    }

    /// Index of the tag with key `k`, or the number of tags when none has it.
    fn find_key(&self, k: &String) -> (r: usize)
        ensures
            r <= self@.len(),
            r < self@.len() ==> self@[r as int].0 == k@,
            forall|j: int| 0 <= j < r ==> #[trigger] self@[j].0 != k@,
    {
        let mut i: usize = 0;
        while i < self.entries.len()
            invariant
                i <= self.entries.len(),
                forall|j: int| 0 <= j < i ==> #[trigger] self@[j].0 != k@,
            decreases self.entries.len() - i,
        {
            assert(self@[i as int].0 == self.entries[i as int].key@);
            if self.entries[i].key == *k {
                return i;
            }
            i = i + 1;
        }
        i
    }

    /// Sets key `k` to `v`, replacing the value of an existing key.
    pub fn add_tag(&mut self, k: String, v: String)
        requires
            old(self).wf(),
        ensures
            final(self).wf(),
            final(self)@ == tags_insert(old(self)@, k@, v@),
    {
        let ghost s = self@;
        let ghost kv = k@;
        let ghost vv = v@;
        let n = self.entries.len();
        let i = self.find_key(&k);
        if i < n {
            proof {
                assert(s[i as int].0 == kv);
                let c = choose|c: int| 0 <= c < s.len() && #[trigger] s[c].0 == kv;
                assert(c == i) by {
                    if c != i {
                        if c < i {
                            assert(s[c].0 != s[i as int].0);
                        } else {
                            assert(s[i as int].0 != s[c].0);
                        }
                    }
                }
            }
            self.entries.set(i, Tag { key: k, value: v });
            assert(self@ =~= tags_insert(s, kv, vv));
        } else {
            self.entries.push(Tag { key: k, value: v });
            assert(!has_key(s, kv));
            assert(self@ =~= tags_insert(s, kv, vv));
        }
    }

    /// The `<tags>` element, or nothing when there are no tags.
    pub fn to_xml(&self) -> (r: Vec<u8>)
        ensures
            r@ == tags_xml(self@),
    {
        let mut out: Vec<u8> = Vec::new();
        self.push_xml(&mut out);
        out
    }

    /// Appends the `<tags>` element to `out`, or nothing when there are no
    /// tags.
    pub fn push_xml(&self, out: &mut Vec<u8>)
        ensures
            final(out)@ == old(out)@ + tags_xml(self@),
    {
        if self.entries.len() == 0 {
            assert(old(out)@ + tags_xml(self@) =~= old(out)@);
            return;
        }
        let ghost start = out@;
        push_str(out, "<tags>");
        let mut i: usize = 0;
        while i < self.entries.len()
            invariant
                i <= self.entries.len(),
                out@ == start + utf8("<tags>"@) + tag_elements(self@.subrange(0, i as int)),
            decreases self.entries.len() - i,
        {
            let t = self.entries[i].to_xml();
            crate::text::push_bytes(out, t.as_slice());
            proof {
                let pre = self@.subrange(0, i + 1);
                assert(pre.drop_last() =~= self@.subrange(0, i as int));
                assert(pre.last() == self@[i as int]);
                assert(out@ =~= start + utf8("<tags>"@) + tag_elements(pre));
            }
            i = i + 1;
        }
        assert(self@.subrange(0, self.entries.len() as int) =~= self@);
        push_str(out, "</tags>");
        assert(out@ =~= start + tags_xml(self@));
    }
}

} // verus!
