//! A plain-value model of parsed JSON documents.
//!
//! The decoder works on [`JsonValue`], the crate's own representation of a
//! parsed JSON document. Callers that obtain JSON text from elsewhere parse
//! it with whatever parser they use and hand the resulting tree over in this
//! shape. Numbers mirror the three ways a JSON parser classifies them:
//! a non-negative integer, a negative integer, or a floating-point value,
//! which the model carries opaquely by its bit pattern so that no
//! floating-point arithmetic is needed anywhere in the crate.

use vstd::prelude::*;

verus! {

/// A JSON number, classified the way parsers classify them: a non-negative
/// integer that fits 64 bits, a negative integer that fits 64 bits, or any
/// other (floating-point) value, carried by the bit pattern of its 64-bit
/// IEEE 754 encoding. Every value of this type stands for a finite number;
/// JSON has no way to write an infinity or a NaN.
#[derive(Clone, Copy, Debug, PartialEq, Eq, Structural)]
pub enum JsonNumber {
    /// An integer in `0 ..= u64::MAX`.
    PosInt(u64),
    /// An integer in `i64::MIN ..= -1`.
    NegInt(i64),
    /// Any other finite number, by the bits of its 64-bit float encoding.
    Float(u64),
}

impl JsonNumber {
    /// The value as an unsigned integer: defined exactly for non-negative
    /// integers, as the decoder's unsigned fields require.
    pub fn as_u64(&self) -> (r: Option<u64>)
        ensures
            r == self.spec_as_u64(),
    {
        match self {
            JsonNumber::PosInt(n) => Some(*n),
            _ => None,
        }
    }

    /// Spec view of [`Self::as_u64`].
    pub open spec fn spec_as_u64(self) -> Option<u64> {
        match self {
            JsonNumber::PosInt(n) => Some(n),
            _ => None,
        }
    }
}

/// A parsed JSON value. Object members keep the order in which the parser
/// delivered them; lookup takes the first member with a given name.
#[derive(Debug)]
pub enum JsonValue {
    /// The JSON `null`.
    Null,
    /// A JSON boolean.
    Bool(bool),
    /// A JSON number.
    Num(JsonNumber),
    /// A JSON string.
    Str(String),
    /// A JSON array.
    Arr(Vec<JsonValue>),
    /// A JSON object, as its members in order.
    Obj(Vec<(String, JsonValue)>),
}

/// The mathematical shape of a [`JsonValue`]: strings become sequences of
/// characters, vectors become sequences.
#[verifier::ext_equal]
pub enum JsonVal {
    /// The JSON `null`.
    Null,
    /// A JSON boolean.
    Bool(bool),
    /// A JSON number.
    Num(JsonNumber),
    /// A JSON string.
    Str(Seq<char>),
    /// A JSON array.
    Arr(Seq<JsonVal>),
    /// A JSON object.
    Obj(Seq<(Seq<char>, JsonVal)>),
}

/// The view of a [`JsonValue`], member by member.
pub open spec fn view_json(v: JsonValue) -> JsonVal
    decreases v, 0int, 0int,
{
    match v {
        JsonValue::Null => JsonVal::Null,
        JsonValue::Bool(b) => JsonVal::Bool(b),
        JsonValue::Num(n) => JsonVal::Num(n),
        JsonValue::Str(s) => JsonVal::Str(s@),
        JsonValue::Arr(items) => JsonVal::Arr(view_elems(items, 0)),
        JsonValue::Obj(members) => JsonVal::Obj(view_pairs(members, 0)),
    }
}

/// The views of the elements of `items` from position `from` on.
pub open spec fn view_elems(items: Vec<JsonValue>, from: int) -> Seq<JsonVal>
    decreases items, 1int, items@.len() - from,
{
    if 0 <= from < items@.len() {
        seq![view_json(items@[from])] + view_elems(items, from + 1)
    } else {
        Seq::empty()
    }
}

/// The views of the members of `members` from position `from` on.
pub open spec fn view_pairs(members: Vec<(String, JsonValue)>, from: int) -> Seq<
    (Seq<char>, JsonVal),
>
    decreases members, 1int, members@.len() - from,
{
    if 0 <= from < members@.len() {
        seq![(members@[from].0@, view_json(members@[from].1))] + view_pairs(members, from + 1)
    } else {
        Seq::empty()
    }
}

impl View for JsonValue {
    type V = JsonVal;

    open spec fn view(&self) -> JsonVal {
        view_json(*self)
    }
}

/// First member of `members` named `name`, if any.
pub open spec fn spec_lookup(members: Seq<(Seq<char>, JsonVal)>, name: Seq<char>) -> Option<
    JsonVal,
>
    decreases members.len(),
{
    if members.len() == 0 {
        None
    } else if members[0].0 == name {
        Some(members[0].1)
    } else {
        spec_lookup(members.drop_first(), name)
    }
}

/// The views of the members from `from` on are the member views, in order.
pub proof fn lemma_view_pairs_index(members: Vec<(String, JsonValue)>, from: int)
    requires
        0 <= from <= members@.len(),
    ensures
        view_pairs(members, from).len() == members@.len() - from,
        forall|j: int|
            0 <= j < members@.len() - from ==> #[trigger] view_pairs(members, from)[j] == (
            members@[j + from].0@,
            view_json(members@[j + from].1),
            ),
    decreases members@.len() - from,
{
    if from < members@.len() {
        lemma_view_pairs_index(members, from + 1);
        assert forall|j: int| 0 <= j < members@.len() - from implies #[trigger] view_pairs(
            members,
            from,
        )[j] == (members@[j + from].0@, view_json(members@[j + from].1)) by {
            if j > 0 {
                assert(view_pairs(members, from)[j] == view_pairs(members, from + 1)[j - 1]);
            }
        }
    }
}

/// The views of the elements from `from` on are the element views, in order.
pub proof fn lemma_view_elems_index(items: Vec<JsonValue>, from: int)
    requires
        0 <= from <= items@.len(),
    ensures
        view_elems(items, from).len() == items@.len() - from,
        forall|j: int|
            0 <= j < items@.len() - from ==> #[trigger] view_elems(items, from)[j] == view_json(
                items@[j + from],
            ),
    decreases items@.len() - from,
{
    if from < items@.len() {
        lemma_view_elems_index(items, from + 1);
        assert forall|j: int| 0 <= j < items@.len() - from implies #[trigger] view_elems(
            items,
            from,
        )[j] == view_json(items@[j + from]) by {
            if j > 0 {
                assert(view_elems(items, from)[j] == view_elems(items, from + 1)[j - 1]);
            }
        }
    }
}

/// Finds the first member of `members` named `name`.
pub fn lookup<'a>(members: &'a Vec<(String, JsonValue)>, name: &str) -> (r: Option<
    &'a JsonValue,
>)
    ensures
        match r {
            Some(v) => spec_lookup(view_pairs(*members, 0), name@) == Some(v@),
            None => spec_lookup(view_pairs(*members, 0), name@) is None,
        },
{
    let wanted: String = name.to_owned();
    let ghost all = view_pairs(*members, 0);
    proof {
        lemma_view_pairs_index(*members, 0);
        assert(all.skip(0) =~= all);
    }
    let n = members.len();
    for i in 0..n
        invariant
            n == members.len(),
            wanted@ == name@,
            all == view_pairs(*members, 0),
            all.len() == n,
            forall|j: int| 0 <= j < n ==> all[j] == (members@[j].0@, view_json(members@[j].1)),
            spec_lookup(all, name@) == spec_lookup(all.skip(i as int), name@),
    {
        assert(all.skip(i as int).drop_first() =~= all.skip(i + 1));
        if members[i].0 == wanted {
            return Some(&members[i].1);
        }
    }
    assert(all.skip(n as int) =~= Seq::<(Seq<char>, JsonVal)>::empty());
    None
}

/// Looking a name up finds the first member that carries it.
pub proof fn lemma_lookup_first(ms: Seq<(Seq<char>, JsonVal)>, i: int)
    requires
        0 <= i < ms.len(),
        forall|j: int| 0 <= j < i ==> ms[j].0 != ms[i].0,
    ensures
        spec_lookup(ms, ms[i].0) == Some(ms[i].1),
    decreases i,
{
    if i > 0 {
        lemma_lookup_first(ms.drop_first(), i - 1);
        assert(forall|j: int|
            0 <= j < i - 1 ==> ms.drop_first()[j].0 == ms[j + 1].0 && ms.drop_first()[j].0
                != ms[i].0);
    }
}

/// Looking up a name that no member carries finds nothing.
pub proof fn lemma_lookup_absent(ms: Seq<(Seq<char>, JsonVal)>, name: Seq<char>)
    requires
        forall|j: int| 0 <= j < ms.len() ==> ms[j].0 != name,
    ensures
        spec_lookup(ms, name) is None,
    decreases ms.len(),
{
    if ms.len() > 0 {
        lemma_lookup_absent(ms.drop_first(), name);
    }
}

/// A name found in the front part of a member list is what lookup finds in
/// the whole list.
pub proof fn lemma_lookup_concat_left(
    a: Seq<(Seq<char>, JsonVal)>,
    b: Seq<(Seq<char>, JsonVal)>,
    name: Seq<char>,
)
    requires
        spec_lookup(a, name) is Some,
    ensures
        spec_lookup(a + b, name) == spec_lookup(a, name),
    decreases a.len(),
{
    if a.len() > 0 {
        if a[0].0 == name {
            assert((a + b)[0] == a[0]);
        } else {
            lemma_lookup_concat_left(a.drop_first(), b, name);
            assert(a.drop_first() + b =~= (a + b).drop_first());
        }
    }
}

/// A name that neither part of a member list carries, the whole list lacks.
pub proof fn lemma_lookup_absent_concat(
    a: Seq<(Seq<char>, JsonVal)>,
    b: Seq<(Seq<char>, JsonVal)>,
    name: Seq<char>,
)
    requires
        spec_lookup(a, name) is None,
        spec_lookup(b, name) is None,
    ensures
        spec_lookup(a + b, name) is None,
    decreases a.len(),
{
    if a.len() == 0 {
        assert(a + b =~= b);
    } else {
        assert((a + b)[0] == a[0]);
        lemma_lookup_absent_concat(a.drop_first(), b, name);
        assert(a.drop_first() + b =~= (a + b).drop_first());
    }
}

/// A name that the front part of a member list lacks is looked up in the
/// back part.
pub proof fn lemma_lookup_concat_right(
    a: Seq<(Seq<char>, JsonVal)>,
    b: Seq<(Seq<char>, JsonVal)>,
    name: Seq<char>,
)
    requires
        spec_lookup(a, name) is None,
    ensures
        spec_lookup(a + b, name) == spec_lookup(b, name),
    decreases a.len(),
{
    if a.len() == 0 {
        assert(a + b =~= b);
    } else {
        assert((a + b)[0] == a[0]);
        lemma_lookup_concat_right(a.drop_first(), b, name);
        assert(a.drop_first() + b =~= (a + b).drop_first());
    }
}

/// The member list of one optional member: a single member when the value
/// is there, an empty list when it is not.
pub open spec fn opt_member(key: Seq<char>, v: Option<JsonVal>) -> Seq<(Seq<char>, JsonVal)> {
    match v {
        Some(x) => seq![(key, x)],
        None => Seq::empty(),
    }
}

/// Looking the key of an optional member up finds exactly its value;
/// looking any other name up finds nothing.
pub proof fn lemma_opt_member_lookup(key: Seq<char>, v: Option<JsonVal>, name: Seq<char>)
    ensures
        key == name ==> spec_lookup(opt_member(key, v), name) == v,
        key != name ==> spec_lookup(opt_member(key, v), name) is None,
{
    match v {
        Some(x) => {
            let one = seq![(key, x)];
            assert(opt_member(key, v) == one);
            assert(one.drop_first() =~= Seq::<(Seq<char>, JsonVal)>::empty());
            assert(spec_lookup(one.drop_first(), name) is None);
        },
        None => {
            assert(opt_member(key, v) =~= Seq::<(Seq<char>, JsonVal)>::empty());
        },
    }
}

} // verus!
