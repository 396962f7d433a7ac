use vstd::prelude::*;

verus! {

/// A JSON number as the response parser hands it over: unsigned or signed
/// machine integers where the number is one, any other number as the decimal
/// text printed for it.
#[derive(Debug, PartialEq)]
pub enum JsonNum {
    UInt(u64),
    Int(i64),
    Other(String),
}

/// The mathematical image of a `JsonNum`.
pub enum NumModel {
    UInt(u64),
    Int(i64),
    Other(Seq<char>),
}

impl View for JsonNum {
    type V = NumModel;

    open spec fn view(&self) -> NumModel {
        match self {
            JsonNum::UInt(u) => NumModel::UInt(*u),
            JsonNum::Int(i) => NumModel::Int(*i),
            JsonNum::Other(s) => NumModel::Other(s@),
        }
    }
}

impl DeepView for JsonNum {
    type V = NumModel;

    open spec fn deep_view(&self) -> NumModel {
        self.view()
    }
}

impl Clone for JsonNum {
    fn clone(&self) -> (r: Self)
        ensures
            r == *self,
    {
        match self {
            JsonNum::UInt(u) => JsonNum::UInt(*u),
            JsonNum::Int(i) => JsonNum::Int(*i),
            JsonNum::Other(s) => JsonNum::Other(s.clone()),
        }
    }
}

/// A JSON value. Object members keep the order the parser yields them in;
/// when a key repeats, the member closest to the end wins on lookup.
#[derive(Debug, PartialEq)]
pub enum Json {
    Null,
    Bool(bool),
    Num(JsonNum),
    Str(String),
    Arr(Vec<Json>),
    Obj(Vec<(String, Json)>),
}

/// The member of an object under a key: the last member with that key, if any.
pub open spec fn spec_obj_get(es: Seq<(String, Json)>, key: Seq<char>) -> Option<Json>
    decreases es.len(),
{
    if es.len() == 0 {
        None
    } else if es.last().0@ == key {
        Some(es.last().1)
    } else {
        spec_obj_get(es.drop_last(), key)
    }
}

/// Appending a member either answers for its own key or leaves every lookup as it was.
pub proof fn lemma_obj_get_push(es: Seq<(String, Json)>, e: (String, Json))
    ensures
        forall|key: Seq<char>|
            #[trigger] spec_obj_get(es.push(e), key) == if e.0@ == key {
                Some(e.1)
            } else {
                spec_obj_get(es, key)
            },
{
    assert(es.push(e).drop_last() =~= es);
    assert(es.push(e).last() == e);
}

pub(crate) fn str_eq(a: &str, b: &str) -> (r: bool)
    ensures
        r == (a@ == b@),
{
    let x: String = a.to_owned();
    let y: String = b.to_owned();
    x == y
}

/// Looks a key up among object members, later members shadowing earlier ones.
pub fn obj_get<'a>(es: &'a Vec<(String, Json)>, key: &str) -> (r: Option<&'a Json>)
    ensures
        match r {
            Some(j) => spec_obj_get(es@, key@) == Some(*j),
            None => spec_obj_get(es@, key@) is None,
        },
{
    let mut i: usize = es.len();
    assert(es@.take(es.len() as int) =~= es@);
    while i > 0
        invariant
            i <= es.len(),
            spec_obj_get(es@, key@) == spec_obj_get(es@.take(i as int), key@),
        decreases i,
    {
        i = i - 1;
        assert(es@.take(i as int + 1).last() == es@[i as int]);
        if str_eq(es[i].0.as_str(), key) {
            return Some(&es[i].1);
        }
        assert(es@.take(i as int + 1).drop_last() =~= es@.take(i as int));
    }
    None
}

/// A required string member: present and a string, or the extraction fails.
pub open spec fn spec_req_str(es: Seq<(String, Json)>, key: Seq<char>) -> Option<Seq<char>> {
    match spec_obj_get(es, key) {
        Some(Json::Str(s)) => Some(s@),
        _ => None,
    }
}

pub fn req_str(es: &Vec<(String, Json)>, key: &str) -> (r: Option<String>)
    ensures
        match r {
            Some(s) => spec_req_str(es@, key@) == Some(s@),
            None => spec_req_str(es@, key@) is None,
        },
{
    match obj_get(es, key) {
        Some(Json::Str(s)) => Some(s.clone()),
        _ => None,
    }
}

/// An optional string member: absent or null stands for no value; any other
/// non-string member makes the extraction fail.
pub open spec fn spec_opt_str(es: Seq<(String, Json)>, key: Seq<char>) -> Option<
    Option<Seq<char>>,
> {
    match spec_obj_get(es, key) {
        None => Some(None),
        Some(Json::Null) => Some(None),
        Some(Json::Str(s)) => Some(Some(s@)),
        Some(_) => None,
    }
}

pub fn opt_str(es: &Vec<(String, Json)>, key: &str) -> (r: Option<Option<String>>)
    ensures
        match r {
            Some(Some(s)) => spec_opt_str(es@, key@) == Some(Some(s@)),
            Some(None) => spec_opt_str(es@, key@) == Some(None::<Seq<char>>),
            None => spec_opt_str(es@, key@) is None,
        },
{
    match obj_get(es, key) {
        None => Some(None),
        Some(Json::Null) => Some(None),
        Some(Json::Str(s)) => Some(Some(s.clone())),
        Some(_) => None,
    }
}

/// A required unsigned integer member.
pub open spec fn spec_req_u64(es: Seq<(String, Json)>, key: Seq<char>) -> Option<u64> {
    match spec_obj_get(es, key) {
        Some(Json::Num(JsonNum::UInt(u))) => Some(u),
        _ => None,
    }
}

pub fn req_u64(es: &Vec<(String, Json)>, key: &str) -> (r: Option<u64>)
    ensures
        r == spec_req_u64(es@, key@),
{
    match obj_get(es, key) {
        Some(Json::Num(JsonNum::UInt(u))) => Some(*u),
        _ => None,
    }
}

/// An optional unsigned integer member.
pub open spec fn spec_opt_u64(es: Seq<(String, Json)>, key: Seq<char>) -> Option<Option<u64>> {
    match spec_obj_get(es, key) {
        None => Some(None),
        Some(Json::Null) => Some(None),
        Some(Json::Num(JsonNum::UInt(u))) => Some(Some(u)),
        Some(_) => None,
    }
}

pub fn opt_u64(es: &Vec<(String, Json)>, key: &str) -> (r: Option<Option<u64>>)
    ensures
        r == spec_opt_u64(es@, key@),
{
    match obj_get(es, key) {
        None => Some(None),
        Some(Json::Null) => Some(None),
        Some(Json::Num(JsonNum::UInt(u))) => Some(Some(*u)),
        Some(_) => None,
    }
}

/// A required numeric member, of whatever numeric shape.
pub open spec fn spec_req_num(es: Seq<(String, Json)>, key: Seq<char>) -> Option<NumModel> {
    match spec_obj_get(es, key) {
        Some(Json::Num(n)) => Some(n@),
        _ => None,
    }
}

pub fn req_num(es: &Vec<(String, Json)>, key: &str) -> (r: Option<JsonNum>)
    ensures
        match r {
            Some(n) => spec_req_num(es@, key@) == Some(n@),
            None => spec_req_num(es@, key@) is None,
        },
{
    match obj_get(es, key) {
        Some(Json::Num(n)) => Some(n.clone()),
        _ => None,
    }
}

/// An optional numeric member.
pub open spec fn spec_opt_num(es: Seq<(String, Json)>, key: Seq<char>) -> Option<
    Option<NumModel>,
> {
    match spec_obj_get(es, key) {
        None => Some(None),
        Some(Json::Null) => Some(None),
        Some(Json::Num(n)) => Some(Some(n@)),
        Some(_) => None,
    }
}

pub fn opt_num(es: &Vec<(String, Json)>, key: &str) -> (r: Option<Option<JsonNum>>)
    ensures
        match r {
            Some(Some(n)) => spec_opt_num(es@, key@) == Some(Some(n@)),
            Some(None) => spec_opt_num(es@, key@) == Some(None::<NumModel>),
            None => spec_opt_num(es@, key@) is None,
        },
{
    match obj_get(es, key) {
        None => Some(None),
        Some(Json::Null) => Some(None),
        Some(Json::Num(n)) => Some(Some(n.clone())),
        Some(_) => None,
    }
}

} // verus!
