//! A minimal JSON object model for the wire format: a flat object whose
//! values are strings, booleans, numbers, or one level of nested objects
//! with scalar values — exactly what the structured log document needs.

use vstd::prelude::*;
use crate::text::{append_escaped, dec_str, esc_seq, str_eq, u64_to_dec};

verus! {

/// A scalar JSON value: string, boolean, or (small) number.
#[derive(Clone, Debug, PartialEq)]
pub enum JLeaf {
    Str(String),
    Bool(bool),
    Num(u16),
}

/// A top-level JSON value of the wire format: a scalar, or an object of
/// scalars.
#[derive(Clone, Debug, PartialEq)]
pub enum JField {
    Leaf(JLeaf),
    Object(Vec<(String, JLeaf)>),
}

/// The mathematical value of a [`JLeaf`].
pub enum JLeafV {
    Str(Seq<char>),
    Bool(bool),
    Num(u16),
}

/// The mathematical value of a [`JField`].
pub enum JFieldV {
    Leaf(JLeafV),
    Object(Seq<(Seq<char>, JLeafV)>),
}

impl View for JLeaf {
    type V = JLeafV;

    open spec fn view(&self) -> JLeafV {
        match self {
            JLeaf::Str(s) => JLeafV::Str(s@),
            JLeaf::Bool(b) => JLeafV::Bool(*b),
            JLeaf::Num(n) => JLeafV::Num(*n),
        }
    }
}

/// The mathematical value of an inner object's key/value pairs.
pub open spec fn kvs_view(v: Seq<(String, JLeaf)>) -> Seq<(Seq<char>, JLeafV)> {
    v.map_values(|p: (String, JLeaf)| (p.0@, p.1@))
}

impl View for JField {
    type V = JFieldV;

    open spec fn view(&self) -> JFieldV {
        match self {
            JField::Leaf(l) => JFieldV::Leaf(l@),
            JField::Object(kvs) => JFieldV::Object(kvs_view(kvs@)),
        }
    }
}

/// The mathematical value of a top-level object's key/value pairs.
pub open spec fn fields_view(v: Seq<(String, JField)>) -> Seq<(Seq<char>, JFieldV)> {
    v.map_values(|p: (String, JField)| (p.0@, p.1@))
}

/// The rendering of a scalar value: a quoted, escaped string, a boolean
/// token, or a decimal number.
pub open spec fn render_leaf(l: JLeafV) -> Seq<char> {
    match l {
        JLeafV::Str(s) => "\""@ + esc_seq(s) + "\""@,
        JLeafV::Bool(b) => if b {
            "true"@
        } else {
            "false"@
        },
        JLeafV::Num(n) => dec_str(n as nat),
    }
}

/// One `"key":value` member with a scalar value.
pub open spec fn render_kv_leaf(kv: (Seq<char>, JLeafV)) -> Seq<char> {
    "\""@ + esc_seq(kv.0) + "\":"@ + render_leaf(kv.1)
}

/// Joins already-rendered members with commas.
pub open spec fn join_members(items: Seq<Seq<char>>) -> Seq<char>
    decreases items.len(),
{
    if items.len() == 0 {
        Seq::empty()
    } else if items.len() == 1 {
        items[0]
    } else {
        join_members(items.drop_last()) + ","@ + items.last()
    }
}

/// The rendering of an inner object.
pub open spec fn render_inner_obj(kvs: Seq<(Seq<char>, JLeafV)>) -> Seq<char> {
    "{"@ + join_members(kvs.map_values(|kv: (Seq<char>, JLeafV)| render_kv_leaf(kv))) + "}"@
}

/// The rendering of a top-level value.
pub open spec fn render_field(f: JFieldV) -> Seq<char> {
    match f {
        JFieldV::Leaf(l) => render_leaf(l),
        JFieldV::Object(kvs) => render_inner_obj(kvs),
    }
}

/// One `"key":value` member at top level.
pub open spec fn render_kv_field(kv: (Seq<char>, JFieldV)) -> Seq<char> {
    "\""@ + esc_seq(kv.0) + "\":"@ + render_field(kv.1)
}

/// The rendering of the whole top-level object.
pub open spec fn render_obj(fields: Seq<(Seq<char>, JFieldV)>) -> Seq<char> {
    "{"@ + join_members(fields.map_values(|kv: (Seq<char>, JFieldV)| render_kv_field(kv))) + "}"@
}

proof fn lemma_join_push(items: Seq<Seq<char>>, x: Seq<char>)
    ensures
        join_members(items.push(x)) == if items.len() == 0 {
            x
        } else {
            join_members(items) + ","@ + x
        },
{
    assert(items.push(x).drop_last() =~= items);
    assert(items.push(x).last() == x);
    if items.len() == 0 {
        assert(join_members(items.push(x)) == items.push(x)[0]);
    }
}

fn append_leaf(out: &mut String, l: &JLeaf)
    ensures
        final(out)@ == old(out)@ + render_leaf(l@),
{
    match l {
        JLeaf::Str(s) => {
            out.append("\"");
            append_escaped(out, s.as_str());
            out.append("\"");
            proof {
                assert(out@ =~= old(out)@ + render_leaf(l@));
            }
        },
        JLeaf::Bool(b) => {
            if *b {
                out.append("true");
            } else {
                out.append("false");
            }
        },
        JLeaf::Num(n) => {
            let s = u64_to_dec(*n as u64);
            out.append(s.as_str());
        },
    }
}

fn append_kv_leaf(out: &mut String, key: &String, l: &JLeaf)
    ensures
        final(out)@ == old(out)@ + render_kv_leaf((key@, l@)),
{
    out.append("\"");
    append_escaped(out, key.as_str());
    out.append("\":");
    append_leaf(out, l);
    proof {
        assert(out@ =~= old(out)@ + render_kv_leaf((key@, l@)));
    }
}

fn append_inner_obj(out: &mut String, kvs: &Vec<(String, JLeaf)>)
    ensures
        final(out)@ == old(out)@ + render_inner_obj(kvs_view(kvs@)),
{
    out.append("{");
    let ghost members = kvs_view(kvs@).map_values(|kv: (Seq<char>, JLeafV)| render_kv_leaf(kv));
    let n = kvs.len();
    let mut i: usize = 0;
    while i < n
        invariant
            n == kvs.len(),
            i <= n,
            members == kvs_view(kvs@).map_values(
                |kv: (Seq<char>, JLeafV)| render_kv_leaf(kv),
            ),
            members.len() == n,
            out@ == old(out)@ + "{"@ + join_members(members.subrange(0, i as int)),
        decreases n - i,
    {
        if i > 0 {
            out.append(",");
        }
        append_kv_leaf(out, &kvs[i].0, &kvs[i].1);
        proof {
            assert(members.subrange(0, i + 1 as int) =~= members.subrange(0, i as int).push(
                members[i as int],
            ));
            lemma_join_push(members.subrange(0, i as int), members[i as int]);
            assert(members[i as int] == render_kv_leaf((kvs@[i as int].0@, kvs@[i as int].1@)));
            assert(out@ =~= old(out)@ + "{"@ + join_members(members.subrange(0, i + 1 as int)));
        }
        i += 1;
    }
    out.append("}");
    proof {
        assert(members.subrange(0, n as int) =~= members);
        assert(out@ =~= old(out)@ + render_inner_obj(kvs_view(kvs@)));
    }
}

fn append_field(out: &mut String, f: &JField)
    ensures
        final(out)@ == old(out)@ + render_field(f@),
{
    match f {
        JField::Leaf(l) => append_leaf(out, l),
        JField::Object(kvs) => append_inner_obj(out, kvs),
    }
}

fn append_kv_field(out: &mut String, key: &String, f: &JField)
    ensures
        final(out)@ == old(out)@ + render_kv_field((key@, f@)),
{
    out.append("\"");
    append_escaped(out, key.as_str());
    out.append("\":");
    append_field(out, f);
    proof {
        assert(out@ =~= old(out)@ + render_kv_field((key@, f@)));
    }
}

/// Renders a top-level object to its JSON text.
pub fn render_fields(fields: &Vec<(String, JField)>) -> (r: String)
    ensures
        r@ == render_obj(fields_view(fields@)),
{
    let mut out = String::new();
    out.append("{");
    let ghost members = fields_view(fields@).map_values(
        |kv: (Seq<char>, JFieldV)| render_kv_field(kv),
    );
    let n = fields.len();
    let mut i: usize = 0;
    while i < n
        invariant
            n == fields.len(),
            i <= n,
            members == fields_view(fields@).map_values(
                |kv: (Seq<char>, JFieldV)| render_kv_field(kv),
            ),
            members.len() == n,
            out@ == "{"@ + join_members(members.subrange(0, i as int)),
        decreases n - i,
    {
        if i > 0 {
            out.append(",");
        }
        append_kv_field(&mut out, &fields[i].0, &fields[i].1);
        proof {
            assert(members.subrange(0, i + 1 as int) =~= members.subrange(0, i as int).push(
                members[i as int],
            ));
            lemma_join_push(members.subrange(0, i as int), members[i as int]);
            assert(members[i as int] == render_kv_field(
                (fields@[i as int].0@, fields@[i as int].1@),
            ));
            assert(out@ =~= "{"@ + join_members(members.subrange(0, i + 1 as int)));
        }
        i += 1;
    }
    out.append("}");
    proof {
        assert(members.subrange(0, n as int) =~= members);
        assert(out@ =~= render_obj(fields_view(fields@)));
    }
    out
}

/// Looks a key up in an association list, taking the first match.
pub open spec fn lookup<T>(fields: Seq<(Seq<char>, T)>, key: Seq<char>) -> Option<T>
    decreases fields.len(),
{
    if fields.len() == 0 {
        None
    } else if fields[0].0 == key {
        Some(fields[0].1)
    } else {
        lookup(fields.drop_first(), key)
    }
}

/// An optional member: one pair when the value is present, nothing when it
/// is absent.
pub open spec fn seg<T>(key: Seq<char>, o: Option<T>) -> Seq<(Seq<char>, T)> {
    match o {
        Some(v) => seq![(key, v)],
        None => Seq::empty(),
    }
}

/// What [`lookup`] finds in one optional member alone.
pub proof fn lemma_lookup_seg<T>(k: Seq<char>, o: Option<T>, key: Seq<char>)
    ensures
        lookup(seg(k, o), key) == (if o is Some && key == k {
            o
        } else {
            None::<T>
        }),
{
    match o {
        Some(v) => {
            let s = seg(k, o);
            assert(s =~= seq![(k, v)]);
            assert(s.len() == 1);
            assert(s[0] == (k, v));
            if key == k {
                assert(lookup(s, key) == Some(v));
            } else {
                assert(s.drop_first() =~= Seq::<(Seq<char>, T)>::empty());
                assert(lookup(s.drop_first(), key) == None::<T>);
                assert(lookup(s, key) == None::<T>);
            }
        },
        None => {
            assert(seg(k, o) =~= Seq::<(Seq<char>, T)>::empty());
            assert(lookup(seg(k, o), key) == None::<T>);
        },
    }
}

/// [`lookup`] over a concatenation prefers the left side.
pub proof fn lemma_lookup_concat<T>(a: Seq<(Seq<char>, T)>, b: Seq<(Seq<char>, T)>, key: Seq<char>)
    ensures
        lookup(a + b, key) == (match lookup(a, key) {
            Some(v) => Some(v),
            None => lookup(b, key),
        }),
    decreases a.len(),
{
    if a.len() == 0 {
        assert(a + b =~= b);
    } else {
        assert((a + b)[0] == a[0]);
        if a[0].0 != key {
            assert((a + b).drop_first() =~= a.drop_first() + b);
            lemma_lookup_concat(a.drop_first(), b, key);
        }
    }
}

/// Finds the first top-level member with the given key.
pub fn find_field<'a>(fields: &'a Vec<(String, JField)>, key: &str) -> (r: Option<&'a JField>)
    ensures
        match r {
            Some(f) => lookup(fields_view(fields@), key@) == Some(f@),
            None => lookup(fields_view(fields@), key@) is None,
        },
{
    let n = fields.len();
    let mut i: usize = 0;
    proof {
        assert(fields_view(fields@).skip(0) =~= fields_view(fields@));
    }
    while i < n
        invariant
            n == fields.len(),
            i <= n,
            lookup(fields_view(fields@), key@) == lookup(
                fields_view(fields@).skip(i as int),
                key@,
            ),
        decreases n - i,
    {
        if str_eq(fields[i].0.as_str(), key) {
            proof {
                assert(fields_view(fields@).skip(i as int)[0] == (
                    fields@[i as int].0@,
                    fields@[i as int].1@,
                ));
            }
            return Some(&fields[i].1);
        }
        proof {
            assert(fields_view(fields@).skip(i as int)[0] == (
                fields@[i as int].0@,
                fields@[i as int].1@,
            ));
            assert(fields_view(fields@).skip(i as int).drop_first() =~= fields_view(
                fields@,
            ).skip(i + 1 as int));
        }
        i += 1;
    }
    proof {
        assert(fields_view(fields@).skip(n as int) =~= Seq::empty());
    }
    None
}

/// Finds the first member of an inner object with the given key.
pub fn find_leaf<'a>(kvs: &'a Vec<(String, JLeaf)>, key: &str) -> (r: Option<&'a JLeaf>)
    ensures
        match r {
            Some(l) => lookup(kvs_view(kvs@), key@) == Some(l@),
            None => lookup(kvs_view(kvs@), key@) is None,
        },
{
    let n = kvs.len();
    let mut i: usize = 0;
    proof {
        assert(kvs_view(kvs@).skip(0) =~= kvs_view(kvs@));
    }
    while i < n
        invariant
            n == kvs.len(),
            i <= n,
            lookup(kvs_view(kvs@), key@) == lookup(kvs_view(kvs@).skip(i as int), key@),
        decreases n - i,
    {
        if str_eq(kvs[i].0.as_str(), key) {
            proof {
                assert(kvs_view(kvs@).skip(i as int)[0] == (
                    kvs@[i as int].0@,
                    kvs@[i as int].1@,
                ));
            }
            return Some(&kvs[i].1);
        }
        proof {
            assert(kvs_view(kvs@).skip(i as int)[0] == (
                kvs@[i as int].0@,
                kvs@[i as int].1@,
            ));
            assert(kvs_view(kvs@).skip(i as int).drop_first() =~= kvs_view(kvs@).skip(
                i + 1 as int,
            ));
        }
        i += 1;
    }
    proof {
        assert(kvs_view(kvs@).skip(n as int) =~= Seq::empty());
    }
    None
}

} // verus!
