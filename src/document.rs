use vstd::prelude::*;
use vstd::string::*;

use crate::error::AppError;
use crate::json::{
    distinct_keys, json_object_members, json_quoted, pairs_view, parse_object_members, quote_json,
};

verus! {

/// The members of a JSON object: (key, JSON text of the value), in document order.
pub type Members = Seq<(Seq<char>, Seq<char>)>;

/// The value under `k`, taken from the last member with that key.
pub open spec fn lookup(s: Members, k: Seq<char>) -> Option<Seq<char>>
    decreases s.len(),
{
    if s.len() == 0 {
        None
    } else if s.last().0 == k {
        Some(s.last().1)
    } else {
        lookup(s.drop_last(), k)
    }
}

pub open spec fn has_key(s: Members, k: Seq<char>) -> bool {
    lookup(s, k) is Some
}

/// `s` with the value of every member under `k` replaced by `v`.
pub open spec fn replaced(s: Members, k: Seq<char>, v: Seq<char>) -> Members
    decreases s.len(),
{
    if s.len() == 0 {
        s
    } else {
        let e = s.last();
        replaced(s.drop_last(), k, v).push(if e.0 == k { (k, v) } else { e })
    }
}

/// `s` with `k` set to `v`: in place when the key is there, appended otherwise.
pub open spec fn assigned(s: Members, k: Seq<char>, v: Seq<char>) -> Members {
    if has_key(s, k) {
        replaced(s, k, v)
    } else {
        s.push((k, v))
    }
}

/// `s` without the members under `k`, the others in their order.
pub open spec fn removed(s: Members, k: Seq<char>) -> Members
    decreases s.len(),
{
    if s.len() == 0 {
        s
    } else {
        let r = removed(s.drop_last(), k);
        if s.last().0 == k {
            r
        } else {
            r.push(s.last())
        }
    }
}

/// `s` after the updates in `u`, one after another: `Some(v)` sets the key, `None`
/// removes it.
pub open spec fn updated(s: Members, u: Seq<(Seq<char>, Option<Seq<char>>)>) -> Members
    decreases u.len(),
{
    if u.len() == 0 {
        s
    } else {
        let t = updated(s, u.drop_last());
        match u.last().1 {
            Some(v) => assigned(t, u.last().0, v),
            None => removed(t, u.last().0),
        }
    }
}

pub open spec fn opt_view(o: Option<String>) -> Option<Seq<char>> {
    match o {
        Some(v) => Some(v@),
        None => None,
    }
}

pub open spec fn updates_view(u: Seq<(String, Option<String>)>) -> Seq<(Seq<char>, Option<Seq<char>>)> {
    u.map_values(|e: (String, Option<String>)| (e.0@, opt_view(e.1)))
}

/// One member as text: the quoted key, `colon`, then the value.
pub open spec fn member_text(m: (Seq<char>, Seq<char>), colon: Seq<char>) -> Seq<char> {
    json_quoted(m.0) + colon + m.1
}

/// The members as text, separated by `sep`.
pub open spec fn joined(s: Members, sep: Seq<char>, colon: Seq<char>) -> Seq<char>
    decreases s.len(),
{
    if s.len() == 0 {
        Seq::empty()
    } else if s.len() == 1 {
        member_text(s[0], colon)
    } else {
        joined(s.drop_last(), sep, colon) + sep + member_text(s.last(), colon)
    }
}

/// The object on several lines, one member per line indented by two spaces.
pub open spec fn pretty_text(s: Members) -> Seq<char> {
    if s.len() == 0 {
        "{}"@
    } else {
        "{\n  "@ + joined(s, ",\n  "@, ": "@) + "\n}"@
    }
}

/// The object on one line, without spaces between members.
pub open spec fn compact_text(s: Members) -> Seq<char> {
    "{"@ + joined(s, ","@, ":"@) + "}"@
}

pub proof fn lemma_pairs_view_push(v: Seq<(String, String)>, x: (String, String))
    ensures
        pairs_view(v.push(x)) == pairs_view(v).push((x.0@, x.1@)),
{
    assert(pairs_view(v.push(x)) =~= pairs_view(v).push((x.0@, x.1@)));
}

pub proof fn lemma_has_key_index(s: Members, k: Seq<char>)
    ensures
        has_key(s, k) <==> exists|i: int| 0 <= i < s.len() && s[i].0 == k,
    decreases s.len(),
{
    if s.len() > 0 {
        lemma_has_key_index(s.drop_last(), k);
        if has_key(s.drop_last(), k) {
            let i = choose|i: int| 0 <= i < s.drop_last().len() && s.drop_last()[i].0 == k;
            assert(s[i].0 == k);
        }
        if exists|i: int| 0 <= i < s.len() && s[i].0 == k {
            let i = choose|i: int| 0 <= i < s.len() && s[i].0 == k;
            if i < s.len() - 1 {
                assert(s.drop_last()[i].0 == k);
            }
        }
    }
}

/// Replacing keeps every key in its place and changes only the values under `k`.
pub proof fn lemma_replaced_shape(s: Members, k: Seq<char>, v: Seq<char>)
    ensures
        replaced(s, k, v).len() == s.len(),
        forall|i: int|
            0 <= i < s.len() ==> #[trigger] replaced(s, k, v)[i] == (if s[i].0 == k {
                (k, v)
            } else {
                s[i]
            }),
    decreases s.len(),
{
    if s.len() > 0 {
        lemma_replaced_shape(s.drop_last(), k, v);
        assert forall|i: int| 0 <= i < s.len() implies #[trigger] replaced(s, k, v)[i] == (if s[i].0
            == k {
            (k, v)
        } else {
            s[i]
        }) by {
            if i < s.len() - 1 {
                assert(s.drop_last()[i] == s[i]);
            }
        }
    }
}

pub proof fn lemma_assigned_distinct(s: Members, k: Seq<char>, v: Seq<char>)
    requires
        distinct_keys(s),
    ensures
        distinct_keys(assigned(s, k, v)),
{
    lemma_replaced_shape(s, k, v);
    lemma_has_key_index(s, k);
}

pub proof fn lemma_lookup_push(s: Members, m: (Seq<char>, Seq<char>), k: Seq<char>)
    ensures
        lookup(s.push(m), k) == (if m.0 == k { Some(m.1) } else { lookup(s, k) }),
{
    assert(s.push(m).drop_last() =~= s);
}

pub proof fn lemma_lookup_replaced(s: Members, k: Seq<char>, v: Seq<char>, k2: Seq<char>)
    ensures
        lookup(replaced(s, k, v), k2) == (if k2 == k && has_key(s, k) {
            Some(v)
        } else {
            lookup(s, k2)
        }),
    decreases s.len(),
{
    if s.len() > 0 {
        let e = s.last();
        lemma_lookup_replaced(s.drop_last(), k, v, k2);
        lemma_lookup_push(
            replaced(s.drop_last(), k, v),
            if e.0 == k { (k, v) } else { e },
            k2,
        );
    }
}

pub proof fn lemma_lookup_removed(s: Members, k: Seq<char>, k2: Seq<char>)
    ensures
        lookup(removed(s, k), k2) == (if k2 == k { None } else { lookup(s, k2) }),
    decreases s.len(),
{
    if s.len() > 0 {
        lemma_lookup_removed(s.drop_last(), k, k2);
        if s.last().0 != k {
            lemma_lookup_push(removed(s.drop_last(), k), s.last(), k2);
        }
    }
}

pub proof fn lemma_lookup_assigned(s: Members, k: Seq<char>, v: Seq<char>, k2: Seq<char>)
    ensures
        lookup(assigned(s, k, v), k2) == (if k2 == k { Some(v) } else { lookup(s, k2) }),
{
    lemma_lookup_replaced(s, k, v, k2);
    lemma_lookup_push(s, (k, v), k2);
}

pub proof fn lemma_removed_distinct(s: Members, k: Seq<char>)
    requires
        distinct_keys(s),
    ensures
        distinct_keys(removed(s, k)),
    decreases s.len(),
{
    if s.len() > 0 {
        let d = s.drop_last();
        assert(distinct_keys(d));
        lemma_removed_distinct(d, k);
        if s.last().0 != k {
            let r = removed(d, k);
            lemma_lookup_removed(d, k, s.last().0);
            lemma_has_key_index(d, s.last().0);
            lemma_has_key_index(r, s.last().0);
            assert(distinct_keys(r.push(s.last())));
        }
    }
}

pub proof fn lemma_updated_distinct(s: Members, u: Seq<(Seq<char>, Option<Seq<char>>)>)
    requires
        distinct_keys(s),
    ensures
        distinct_keys(updated(s, u)),
    decreases u.len(),
{
    if u.len() > 0 {
        lemma_updated_distinct(s, u.drop_last());
        let t = updated(s, u.drop_last());
        match u.last().1 {
            Some(v) => lemma_assigned_distinct(t, u.last().0, v),
            None => lemma_removed_distinct(t, u.last().0),
        }
    }
}

/// Setting a key to a value twice in a row leaves the members as the first time did.
pub proof fn lemma_assigned_twice(s: Members, k: Seq<char>, v: Seq<char>)
    ensures
        assigned(assigned(s, k, v), k, v) == assigned(s, k, v),
{
    let a = assigned(s, k, v);
    lemma_lookup_assigned(s, k, v, k);
    lemma_replaced_shape(a, k, v);
    lemma_replaced_shape(s, k, v);
    if !has_key(s, k) {
        lemma_has_key_index(s, k);
    }
    assert(replaced(a, k, v) =~= a);
}

/// Updates that name other keys leave the value under `k` as it was.
pub proof fn lemma_updated_keeps_other(
    s: Members,
    u: Seq<(Seq<char>, Option<Seq<char>>)>,
    k: Seq<char>,
)
    requires
        forall|j: int| 0 <= j < u.len() ==> u[j].0 != k,
    ensures
        lookup(updated(s, u), k) == lookup(s, k),
    decreases u.len(),
{
    if u.len() > 0 {
        let d = u.drop_last();
        assert forall|j: int| 0 <= j < d.len() implies d[j].0 != k by {
            assert(d[j] == u[j]);
        }
        lemma_updated_keeps_other(s, d, k);
        let t = updated(s, d);
        match u.last().1 {
            Some(v) => lemma_lookup_assigned(t, u.last().0, v, k),
            None => lemma_lookup_removed(t, u.last().0, k),
        }
    }
}

/// A live configuration file's top-level JSON object, as an ordered list of members,
/// each a key and the JSON text of its value.
pub struct Document {
    pub entries: Vec<(String, String)>,
}

impl View for Document {
    type V = Members;

    open spec fn view(&self) -> Members {
        pairs_view(self.entries@)
    }
}

impl Document {
    /// Keys are unique, as in any JSON object.
    pub open spec fn wf(&self) -> bool {
        distinct_keys(self@)
    }

    /// The empty object.
    pub fn new() -> (r: Document)
        ensures
            r@ == Seq::<(Seq<char>, Seq<char>)>::empty(),
            r.wf(),
    {
        let r = Document { entries: Vec::new() };
        assert(r@ =~= Seq::<(Seq<char>, Seq<char>)>::empty());
        r
    }

    /// The JSON text stored under `key`, if any.
    pub fn get(&self, key: &str) -> (r: Option<String>)
        ensures
            opt_view(r) == lookup(self@, key@),
    {
        let n = self.entries.len();
        let wanted = String::from_str(key);
        let mut found: Option<String> = None;
        let mut i: usize = 0;
        while i < n
            invariant
                n == self.entries.len(),
                0 <= i <= n,
                wanted@ == key@,
                opt_view(found) == lookup(self@.subrange(0, i as int), key@),
            decreases n - i,
        {
            proof {
                assert(self@.subrange(0, i + 1).drop_last() =~= self@.subrange(0, i as int));
                assert(self@.subrange(0, i + 1).last() == self@[i as int]);
                assert(self@[i as int] == (self.entries@[i as int].0@, self.entries@[i as int].1@));
            }
            if self.entries[i].0 == wanted {
                found = Some(self.entries[i].1.clone());
            }
            i += 1;
        }
        assert(self@.subrange(0, n as int) =~= self@);
        found
    }

    /// Sets `key` to `value`, in place when the key is present and at the end otherwise.
    pub fn set(&mut self, key: String, value: String)
        requires
            old(self).wf(),
        ensures
            final(self).wf(),
            final(self)@ == assigned(old(self)@, key@, value@),
    {
        let n = self.entries.len();
        let mut out: Vec<(String, String)> = Vec::new();
        let mut found = false;
        let mut i: usize = 0;
        while i < n
            invariant
                n == self.entries.len(),
                0 <= i <= n,
                pairs_view(out@) == replaced(self@.subrange(0, i as int), key@, value@),
                found == has_key(self@.subrange(0, i as int), key@),
            decreases n - i,
        {
            proof {
                assert(self@.subrange(0, i + 1).drop_last() =~= self@.subrange(0, i as int));
                assert(self@.subrange(0, i + 1).last() == self@[i as int]);
                assert(self@[i as int] == (self.entries@[i as int].0@, self.entries@[i as int].1@));
            }
            let item = if self.entries[i].0 == key {
                found = true;
                (key.clone(), value.clone())
            } else {
                (self.entries[i].0.clone(), self.entries[i].1.clone())
            };
            proof {
                lemma_pairs_view_push(out@, item);
            }
            out.push(item);
            i += 1;
        }
        assert(self@.subrange(0, n as int) =~= self@);
        if !found {
            proof {
                lemma_pairs_view_push(out@, (key, value));
                lemma_replaced_shape(self@, key@, value@);
                lemma_has_key_index(self@, key@);
                assert(replaced(self@, key@, value@) =~= self@);
            }
            out.push((key, value));
        }
        proof {
            lemma_assigned_distinct(self@, key@, value@);
        }
        self.entries = out;
    }

    /// Removes `key` if present; the other members keep their order.
    pub fn remove(&mut self, key: &str)
        requires
            old(self).wf(),
        ensures
            final(self).wf(),
            final(self)@ == removed(old(self)@, key@),
    {
        let n = self.entries.len();
        let unwanted = String::from_str(key);
        let mut out: Vec<(String, String)> = Vec::new();
        let mut i: usize = 0;
        while i < n
            invariant
                n == self.entries.len(),
                0 <= i <= n,
                unwanted@ == key@,
                pairs_view(out@) == removed(self@.subrange(0, i as int), key@),
            decreases n - i,
        {
            proof {
                assert(self@.subrange(0, i + 1).drop_last() =~= self@.subrange(0, i as int));
                assert(self@.subrange(0, i + 1).last() == self@[i as int]);
                assert(self@[i as int] == (self.entries@[i as int].0@, self.entries@[i as int].1@));
            }
            if !(self.entries[i].0 == unwanted) {
                let item = (self.entries[i].0.clone(), self.entries[i].1.clone());
                proof {
                    lemma_pairs_view_push(out@, item);
                }
                out.push(item);
            }
            i += 1;
        }
        assert(self@.subrange(0, n as int) =~= self@);
        proof {
            lemma_removed_distinct(self@, key@);
        }
        self.entries = out;
    }

    /// Applies the updates in order: `Some(v)` sets the key to `v`, `None` removes it.
    /// Members under other keys are left as they are.
    pub fn merge_keys(&mut self, updates: &Vec<(String, Option<String>)>)
        requires
            old(self).wf(),
        ensures
            final(self).wf(),
            final(self)@ == updated(old(self)@, updates_view(updates@)),
    {
        let n = updates.len();
        let mut i: usize = 0;
        while i < n
            invariant
                n == updates.len(),
                0 <= i <= n,
                self.wf(),
                self@ == updated(old(self)@, updates_view(updates@).subrange(0, i as int)),
            decreases n - i,
        {
            proof {
                assert(updates_view(updates@).subrange(0, i + 1).drop_last()
                    =~= updates_view(updates@).subrange(0, i as int));
            }
            match &updates[i].1 {
                Some(v) => self.set(updates[i].0.clone(), v.clone()),
                None => self.remove(updates[i].0.as_str()),
            }
            i += 1;
        }
        assert(updates_view(updates@).subrange(0, n as int) =~= updates_view(updates@));
    }

    /// The members as text, each key quoted, separated by `sep`.
    fn join(&self, sep: &str, colon: &str) -> (r: String)
        ensures
            r@ == joined(self@, sep@, colon@),
    {
        let n = self.entries.len();
        let mut out = String::new();
        let mut i: usize = 0;
        while i < n
            invariant
                n == self.entries.len(),
                0 <= i <= n,
                out@ == joined(self@.subrange(0, i as int), sep@, colon@),
            decreases n - i,
        {
            proof {
                assert(self@.subrange(0, i + 1).drop_last() =~= self@.subrange(0, i as int));
                assert(self@.subrange(0, i + 1).last() == self@[i as int]);
                assert(self@[i as int] == (self.entries@[i as int].0@, self.entries@[i as int].1@));
            }
            if i > 0 {
                out.append(sep);
            }
            let q = quote_json(self.entries[i].0.as_str());
            out.append(q.as_str());
            out.append(colon);
            out.append(self.entries[i].1.as_str());
            proof {
                assert(out@ =~= joined(self@.subrange(0, i + 1), sep@, colon@));
            }
            i += 1;
        }
        assert(self@.subrange(0, n as int) =~= self@);
        out
    }

    /// The object on several lines, one member per line: the text written to a live file.
    pub fn render(&self) -> (r: String)
        ensures
            r@ == pretty_text(self@),
    {
        if self.entries.len() == 0 {
            String::from_str("{}")
        } else {
            let mut out = String::from_str("{\n  ");
            let body = self.join(",\n  ", ": ");
            out.append(body.as_str());
            out.append("\n}");
            out
        }
    }

    /// The object on one line.
    pub fn render_compact(&self) -> (r: String)
        ensures
            r@ == compact_text(self@),
    {
        let mut out = String::from_str("{");
        let body = self.join(",", ":");
        out.append(body.as_str());
        out.append("}");
        out
    }

    /// Parses a JSON object; any other text is a parse error.
    pub fn parse(text: &str) -> (r: Result<Document, AppError>)
        ensures
            r matches Ok(d) ==> d.wf() && json_object_members(text@) == Some(d@),
            r matches Err(e) ==> e.is_parse() && json_object_members(text@) is None,
            r is Ok <==> json_object_members(text@) is Some,
    {
        match parse_object_members(text) {
            Some(entries) => Ok(Document { entries }),
            None => Err(AppError::Parse(String::from_str("live file is not a JSON object"))),
        }
    }

    /// The document in a live file's contents, or the empty object when there is no file.
    pub fn read_or_empty(contents: Option<&str>) -> (r: Result<Document, AppError>)
        ensures
            contents is None ==> (r matches Ok(d) && d@.len() == 0 && d.wf()),
            contents matches Some(t) ==> {
                &&& r is Ok <==> json_object_members(t@) is Some
                &&& r matches Ok(d) ==> d.wf() && json_object_members(t@) == Some(d@)
                &&& r matches Err(e) ==> e.is_parse()
            },
    {
        match contents {
            None => Ok(Document::new()),
            Some(t) => Document::parse(t),
        }
    }
}

} // verus!
