use vstd::prelude::*;

use std::collections::HashMap;

use crate::codec::{decode_movie, decode_provider, spec_decode_movie, spec_decode_provider};
use crate::json::{Json, obj_get, spec_obj_get};
use crate::model::{Movie, MovieModel, Provider, ProviderModel};
use crate::parse::{json_of, parse_json};

verus! {

broadcast use vstd::std_specs::hash::group_hash_axioms;

/// What a whole call can fail with: the transport failed, or it succeeded
/// and the body was not JSON. Either way the underlying error's description
/// is carried along.
#[derive(Debug)]
pub enum CanIStreamError {
    RequestError(String),
    NoJson(String),
}

impl CanIStreamError {
    /// The description the error carries.
    pub open spec fn spec_message(&self) -> Seq<char> {
        match self {
            CanIStreamError::RequestError(e) => e@,
            CanIStreamError::NoJson(e) => e@,
        }
    }

    pub fn message(&self) -> (r: &str)
        ensures
            r@ == self.spec_message(),
    {
        match self {
            CanIStreamError::RequestError(e) => e.as_str(),
            CanIStreamError::NoJson(e) => e.as_str(),
        }
    }
}

/// The absolute URL of an endpoint: the fixed service root with the endpoint
/// path behind it.
pub fn base_url(endpoint: &str) -> (r: String)
    ensures
        r@ == "https://apis.justwatch.com/content"@ + endpoint@,
{
    let mut u = String::from_str("https://apis.justwatch.com/content");
    u.append(endpoint);
    u
}

/// The search endpoint, under the fixed locale.
pub fn search_endpoint() -> (r: String)
    ensures
        r@ == "/titles/en_US/popular"@,
{
    String::from_str("/titles/en_US/popular")
}

/// The provider listing endpoint, under the fixed locale.
pub fn providers_endpoint() -> (r: String)
    ensures
        r@ == "/providers/locale/en_US"@,
{
    String::from_str("/providers/locale/en_US")
}

/// The member list a search response holds its titles in: the "items" member
/// of the response object. Anything else, a missing "items" or one that is
/// not a list yields no members at all, not an error.
pub open spec fn spec_search_items(j: Json) -> Seq<Json> {
    match j {
        Json::Obj(es) => match spec_obj_get(es@, "items"@) {
            Some(Json::Arr(v)) => v@,
            _ => Seq::empty(),
        },
        _ => Seq::empty(),
    }
}

/// The member list a providers response is: the response itself when it is a
/// list, and nothing otherwise.
pub open spec fn spec_providers_items(j: Json) -> Seq<Json> {
    match j {
        Json::Arr(v) => v@,
        _ => Seq::empty(),
    }
}

/// The titles of a member list, in the order given: each member that decodes
/// as a title, the ones that fail left out.
pub open spec fn spec_titles_of(items: Seq<Json>) -> Seq<MovieModel>
    decreases items.len(),
{
    if items.len() == 0 {
        Seq::empty()
    } else {
        let rest = spec_titles_of(items.drop_last());
        match spec_decode_movie(items.last()) {
            Some(m) => rest.push(m),
            None => rest,
        }
    }
}

/// Decodes each member of an item list into a title; a member that fails is
/// skipped and never fails the whole list.
pub fn titles_of_items(items: &Vec<Json>) -> (r: Vec<Movie>)
    ensures
        r.deep_view() == spec_titles_of(items@),
{
    let mut out: Vec<Movie> = Vec::new();
    let mut i: usize = 0;
    assert(items@.take(0int) =~= Seq::<Json>::empty());
    while i < items.len()
        invariant
            i <= items.len(),
            out.deep_view() == spec_titles_of(items@.take(i as int)),
        decreases items.len() - i,
    {
        let ghost prev = out.deep_view();
        match decode_movie(&items[i]) {
            Some(m) => {
                out.push(m);
                proof {
                    assert(out.deep_view() =~= prev.push(m@));
                }
            },
            None => {},
        }
        proof {
            assert(items@.take(i as int + 1).drop_last() =~= items@.take(i as int));
            assert(items@.take(i as int + 1).last() == items@[i as int]);
        }
        i = i + 1;
    }
    assert(items@.take(items.len() as int) =~= items@);
    out
}

/// The providers of a member list, in the order given, failures skipped.
pub open spec fn spec_providers_of(items: Seq<Json>) -> Seq<ProviderModel>
    decreases items.len(),
{
    if items.len() == 0 {
        Seq::empty()
    } else {
        let rest = spec_providers_of(items.drop_last());
        match spec_decode_provider(items.last()) {
            Some(p) => rest.push(p),
            None => rest,
        }
    }
}

/// The mapping a provider list folds into: each provider under its id, a
/// later provider overwriting an earlier one with the same id.
pub open spec fn spec_provider_map(ps: Seq<ProviderModel>) -> Map<u64, ProviderModel>
    decreases ps.len(),
{
    if ps.len() == 0 {
        Map::empty()
    } else {
        spec_provider_map(ps.drop_last()).insert(ps.last().id, ps.last())
    }
}

/// Decodes each member of a providers response into a provider and keys the
/// survivors by id; a member that fails is skipped, and of two providers with
/// one id the later wins.
pub fn providers_of_items(items: &Vec<Json>) -> (r: HashMap<u64, Provider>)
    ensures
        r@.map_values(|p: Provider| p@) == spec_provider_map(spec_providers_of(items@)),
{
    let mut m: HashMap<u64, Provider> = HashMap::new();
    assert(items@.take(0int) =~= Seq::<Json>::empty());
    assert(m@.map_values(|p: Provider| p@) =~= Map::<u64, ProviderModel>::empty());
    let mut i: usize = 0;
    while i < items.len()
        invariant
            i <= items.len(),
            m@.map_values(|p: Provider| p@) == spec_provider_map(
                spec_providers_of(items@.take(i as int)),
            ),
        decreases items.len() - i,
    {
        let ghost prev = m@.map_values(|p: Provider| p@);
        match decode_provider(&items[i]) {
            Some(p) => {
                let ghost pm = p@;
                let ghost id = p.id;
                m.insert(p.id, p);
                proof {
                    assert(items@.take(i as int + 1).drop_last() =~= items@.take(i as int));
                    assert(items@.take(i as int + 1).last() == items@[i as int]);
                    let ps = spec_providers_of(items@.take(i as int));
                    assert(ps.push(pm).drop_last() =~= ps);
                    assert(ps.push(pm).last() == pm);
                    assert(spec_providers_of(items@.take(i as int + 1)) == ps.push(pm));
                    assert(m@.map_values(|p: Provider| p@) =~= prev.insert(id, pm));
                }
            },
            None => {
                proof {
                    assert(items@.take(i as int + 1).drop_last() =~= items@.take(i as int));
                    assert(items@.take(i as int + 1).last() == items@[i as int]);
                }
            },
        }
        i = i + 1;
    }
    assert(items@.take(items.len() as int) =~= items@);
    m
}

/// Settles a search from the transport's outcome: the response body on
/// success, the transport error's description on failure. A failed transport
/// is a RequestError, a body that is not JSON is a NoJson, and otherwise
/// every well-formed title of the "items" list is returned in server order,
/// the ill-formed ones skipped.
pub fn search_outcome(outcome: Result<String, String>) -> (r: Result<
    Vec<Movie>,
    CanIStreamError,
>)
    ensures
        outcome matches Err(e) ==> (r matches Err(CanIStreamError::RequestError(m)) && m@ == e@),
        outcome matches Ok(b) ==> match json_of(b@) {
            Ok(j) => (r matches Ok(ms) && ms.deep_view() == spec_titles_of(spec_search_items(j))),
            Err(pe) => (r matches Err(CanIStreamError::NoJson(m)) && m@ == pe),
        },
{
    match outcome {
        Err(e) => Err(CanIStreamError::RequestError(e)),
        Ok(body) => match parse_json(body.as_str()) {
            Err(pe) => Err(CanIStreamError::NoJson(pe)),
            Ok(j) => {
                match &j {
                    Json::Obj(es) => match obj_get(es, "items") {
                        Some(Json::Arr(v)) => Ok(titles_of_items(v)),
                        _ => {
                            let out: Vec<Movie> = Vec::new();
                            assert(out.deep_view() =~= Seq::<MovieModel>::empty());
                            Ok(out)
                        },
                    },
                    _ => {
                        let out: Vec<Movie> = Vec::new();
                        assert(out.deep_view() =~= Seq::<MovieModel>::empty());
                        Ok(out)
                    },
                }
            },
        },
    }
}

/// Settles a provider listing from the transport's outcome, as search_outcome
/// does, the response being one list of providers keyed by id.
pub fn providers_outcome(outcome: Result<String, String>) -> (r: Result<
    HashMap<u64, Provider>,
    CanIStreamError,
>)
    ensures
        outcome matches Err(e) ==> (r matches Err(CanIStreamError::RequestError(m)) && m@ == e@),
        outcome matches Ok(b) ==> match json_of(b@) {
            Ok(j) => (r matches Ok(ps) && ps@.map_values(|p: Provider| p@) == spec_provider_map(
                spec_providers_of(spec_providers_items(j)),
            )),
            Err(pe) => (r matches Err(CanIStreamError::NoJson(m)) && m@ == pe),
        },
{
    match outcome {
        Err(e) => Err(CanIStreamError::RequestError(e)),
        Ok(body) => match parse_json(body.as_str()) {
            Err(pe) => Err(CanIStreamError::NoJson(pe)),
            Ok(j) => {
                match &j {
                    Json::Arr(v) => Ok(providers_of_items(v)),
                    _ => {
                        let m: HashMap<u64, Provider> = HashMap::new();
                        assert(m@.map_values(|p: Provider| p@) =~= Map::<
                            u64,
                            ProviderModel,
                        >::empty());
                        Ok(m)
                    },
                }
            },
        },
    }
}

} // verus!

verus! {

/// A provider list's mapping holds exactly the ids of the list, and under
/// each id the last provider of the list that carries it.
pub proof fn lemma_provider_map_keys(ps: Seq<ProviderModel>)
    ensures
        spec_provider_map(ps).dom().finite(),
        forall|k: u64|
            #[trigger] spec_provider_map(ps).contains_key(k) <==> (exists|i: int|
                0 <= i < ps.len() && ps[i].id == k),
        forall|i: int|
            (0 <= i < ps.len() && (forall|j: int| i < j < ps.len() ==> ps[j].id != ps[i].id))
                ==> spec_provider_map(ps)[ps[i].id] == ps[i],
    decreases ps.len(),
{
    if ps.len() > 0 {
        let dl = ps.drop_last();
        lemma_provider_map_keys(dl);
        assert forall|k: u64| #[trigger] spec_provider_map(ps).contains_key(k) implies (exists|
            i: int,
        |
            0 <= i < ps.len() && ps[i].id == k) by {
            if k == ps.last().id {
                assert(ps[ps.len() - 1].id == k);
            } else {
                let i = choose|i: int| 0 <= i < dl.len() && dl[i].id == k;
                assert(ps[i].id == k);
            }
        }
        assert forall|k: u64|
            (exists|i: int| 0 <= i < ps.len() && ps[i].id == k) implies #[trigger] spec_provider_map(
            ps,
        ).contains_key(k) by {
            let i = choose|i: int| 0 <= i < ps.len() && ps[i].id == k;
            if i == ps.len() - 1 {
            } else {
                assert(dl[i].id == k);
            }
        }
        assert forall|i: int|
            (0 <= i < ps.len() && (forall|j: int| i < j < ps.len() ==> ps[j].id != ps[i].id))
                implies spec_provider_map(ps)[ps[i].id] == ps[i] by {
            if i == ps.len() - 1 {
            } else {
                assert(ps[ps.len() - 1].id != ps[i].id);
                assert(forall|j: int| i < j < dl.len() ==> dl[j].id != dl[i].id);
                assert(spec_provider_map(dl)[dl[i].id] == dl[i]);
            }
        }
    }
}

/// With pairwise distinct ids, the mapping holds one provider per member of
/// the list: its size is the list's length.
pub proof fn lemma_provider_map_size(ps: Seq<ProviderModel>)
    requires
        forall|i: int, j: int| 0 <= i < j < ps.len() ==> ps[i].id != ps[j].id,
    ensures
        spec_provider_map(ps).dom().len() == ps.len(),
    decreases ps.len(),
{
    broadcast use vstd::set::axiom_set_insert_len;

    if ps.len() > 0 {
        let dl = ps.drop_last();
        lemma_provider_map_size(dl);
        lemma_provider_map_keys(dl);
        assert(!spec_provider_map(dl).contains_key(ps.last().id)) by {
            if spec_provider_map(dl).contains_key(ps.last().id) {
                let i = choose|i: int| 0 <= i < dl.len() && dl[i].id == ps.last().id;
                assert(ps[i].id == ps[ps.len() - 1].id);
                assert(false);
            }
        }
        assert(spec_provider_map(ps).dom() =~= spec_provider_map(dl).dom().insert(ps.last().id));
    }
}

} // verus!
