//! The top level of a JSON object as the protocol reads it: an ordered list
//! of members, each a key and a field. A field is either a JSON string, kept
//! as its text, or any other JSON value, kept as its compact JSON text.

use vstd::prelude::*;

verus! {

/// One member value of the top-level object.
#[derive(Debug)]
pub enum Field {
    /// A JSON string, unescaped.
    Text(String),
    /// Any other JSON value, as compact JSON text.
    Raw(String),
}

/// The mathematical value of a `Field`.
pub ghost enum FieldView {
    Text(Seq<char>),
    Raw(Seq<char>),
}

impl View for Field {
    type V = FieldView;

    open spec fn view(&self) -> FieldView {
        match self {
            Field::Text(s) => FieldView::Text(s@),
            Field::Raw(s) => FieldView::Raw(s@),
        }
    }
}

/// The members of an object, as keys and field values.
pub type Members = Seq<(Seq<char>, FieldView)>;

/// The view of a list of members.
pub open spec fn members_view(m: Seq<(String, Field)>) -> Members {
    m.map_values(|p: (String, Field)| (p.0@, p.1@))
}

/// `i` is the position of the first member keyed `k`.
pub open spec fn is_first_key(m: Members, k: Seq<char>, i: int) -> bool {
    &&& 0 <= i < m.len()
    &&& m[i].0 == k
    &&& forall|j: int| 0 <= j < i ==> m[j].0 != k
}

/// Some member is keyed `k`.
pub open spec fn has_key(m: Members, k: Seq<char>) -> bool {
    exists|i: int| 0 <= i < m.len() && m[i].0 == k
}

/// The position of the first member keyed `k`, if there is one.
pub open spec fn first_key(m: Members, k: Seq<char>) -> Option<int> {
    if exists|i: int| is_first_key(m, k, i) {
        Some(choose|i: int| is_first_key(m, k, i))
    } else {
        None
    }
}

/// The first member keyed `k`, if there is one, and it is a string.
pub open spec fn text_at(m: Members, k: Seq<char>) -> Option<Seq<char>> {
    match first_key(m, k) {
        Some(i) => match m[i].1 {
            FieldView::Text(s) => Some(s),
            FieldView::Raw(_) => None,
        },
        None => None,
    }
}

/// The first member keyed `k`, if there is one, and it is not a string.
pub open spec fn raw_at(m: Members, k: Seq<char>) -> Option<Seq<char>> {
    match first_key(m, k) {
        Some(i) => match m[i].1 {
            FieldView::Raw(s) => Some(s),
            FieldView::Text(_) => None,
        },
        None => None,
    }
}

/// At most one position is the first one keyed `k`.
pub proof fn lemma_first_key_unique(m: Members, k: Seq<char>, i: int)
    requires
        is_first_key(m, k, i),
    ensures
        first_key(m, k) == Some(i),
{
    let c = choose|c: int| is_first_key(m, k, c);
    assert(is_first_key(m, k, c));
    if c < i {
        assert(m[c].0 != k);
    } else if i < c {
        assert(m[i].0 != k);
    }
}

/// Where some member is keyed `k`, there is a first one.
pub proof fn lemma_some_first_key(m: Members, k: Seq<char>, i: int)
    requires
        0 <= i < m.len(),
        m[i].0 == k,
    ensures
        first_key(m, k) is Some,
    decreases i,
{
    if forall|j: int| 0 <= j < i ==> m[j].0 != k {
        lemma_first_key_unique(m, k, i);
    } else {
        let j = choose|j: int| 0 <= j < i && m[j].0 == k;
        lemma_some_first_key(m, k, j);
    }
}

/// Whether two texts are equal.
pub fn same_text(a: &String, b: &str) -> (r: bool)
    ensures
        r == (a@ == b@),
{
    let b = String::from_str(b);
    *a == b
}

/// The position of the first member keyed `k`.
pub fn find_key(m: &Vec<(String, Field)>, k: &str) -> (r: Option<usize>)
    ensures
        r matches Some(i) ==> first_key(members_view(m@), k@) == Some(i as int),
        r is None ==> first_key(members_view(m@), k@) is None,
{
    let ghost mv = members_view(m@);
    let mut i: usize = 0;
    while i < m.len()
        invariant
            i <= m.len(),
            mv == members_view(m@),
            forall|j: int| 0 <= j < i ==> mv[j].0 != k@,
        decreases m.len() - i,
    {
        if same_text(&m[i].0, k) {
            proof {
                lemma_first_key_unique(mv, k@, i as int);
            }
            return Some(i);
        }
        i = i + 1;
    }
    None
}

/// The error that serde_json reports.
#[verifier::external_type_specification]
#[verifier::external_body]
pub struct ExJsonError(serde_json::Error);

/// What serde_json reads from a byte buffer: `None` where the bytes are not
/// JSON text, `Some(None)` where they are JSON but not an object, and the
/// object's members otherwise.
pub uninterp spec fn parsed_object(b: Seq<u8>) -> Option<Option<Members>>;

/// The JSON text that serde_json writes for an object of these members, or
/// `None` where a raw field does not hold JSON text.
pub uninterp spec fn object_text(m: Members) -> Option<Seq<u8>>;

/// The view of a parsed object.
pub open spec fn parsed_view(o: Option<Vec<(String, Field)>>) -> Option<Members> {
    match o {
        Some(m) => Some(members_view(m@)),
        None => None,
    }
}

/// Relies on serde_json::from_slice into a `serde_json::Value`: the bytes are
/// read as one JSON value, and an object's members are handed over with
/// strings unescaped and every other value written back as compact JSON text.
#[verifier::external_body]
pub(crate) fn parse_object(b: &[u8]) -> (r: Result<Option<Vec<(String, Field)>>, serde_json::Error>)
    ensures
        r is Err <==> parsed_object(b@) is None,
        r matches Ok(o) ==> parsed_object(b@) == Some(parsed_view(o)),
{
    match serde_json::from_slice::<serde_json::Value>(b)? {
        serde_json::Value::Object(members) => {
            let mut out = Vec::new();
            for (k, v) in members {
                out.push((k, match v {
                    serde_json::Value::String(s) => Field::Text(s),
                    other => Field::Raw(other.to_string()),
                }));
            }
            Ok(Some(out))
        },
        _ => Ok(None),
    }
}

/// Relies on serde_json::to_vec of a `serde_json::Map`: strings are escaped,
/// raw fields are read back with serde_json::from_str, and the object is
/// written as compact JSON text.
#[verifier::external_body]
pub(crate) fn encode_object(m: &Vec<(String, Field)>) -> (r: Result<Vec<u8>, serde_json::Error>)
    ensures
        r is Err <==> object_text(members_view(m@)) is None,
        r matches Ok(b) ==> object_text(members_view(m@)) == Some(b@),
{
    let mut map = serde_json::Map::new();
    for (k, f) in m.iter() {
        map.insert(k.clone(), match f {
            Field::Text(s) => serde_json::Value::String(s.clone()),
            Field::Raw(t) => serde_json::from_str(t)?,
        });
    }
    serde_json::to_vec(&map)
}

} // verus!
