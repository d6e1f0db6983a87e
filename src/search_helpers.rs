use crate::cache::Cache;
use crate::filter::strings_view;
use crate::search::SearchError;
use rand::rngs::ThreadRng;
use rand::Rng;
use vstd::prelude::*;

verus! {

/// rand's handle on the thread-local generator, carried as an opaque value.
#[verifier::external_type_specification]
#[verifier::external_body]
pub struct ExThreadRng(ThreadRng);

/// Relies on rand::thread_rng: a handle on the thread's generator; nothing is
/// promised of what it will draw.
pub assume_specification[ rand::thread_rng ]() -> ThreadRng;

/// Relies on rand::Rng::gen_range: a draw from `0..len` lies in that range
/// (it panics on an empty range, which `requires` rules out).
#[verifier::external_body]
fn draw_index(rng: &mut ThreadRng, len: usize) -> (r: usize)
    requires
        len > 0,
    ensures
        r < len,
{
    rng.gen_range(0..len)
}

/// The candidate at `index`, or `None` when the index is out of range.
pub fn instance_at(urls: &Vec<String>, index: usize) -> (r: Option<String>)
    ensures
        index < urls@.len() ==> r == Some(urls@[index as int]),
        index >= urls@.len() ==> r is None,
{
    if index < urls.len() {
        Some(urls[index].clone())
    } else {
        None
    }
}

/// One of the candidates, drawn uniformly at random; fails when there is
/// none.
pub fn get_random_instance_url(urls: &Vec<String>) -> (r: Result<String, SearchError>)
    ensures
        urls@.len() == 0 <==> r is Err,
        r is Err ==> r == Err::<String, SearchError>(SearchError::NoEligibleInstance),
        r is Ok ==> strings_view(urls@).contains(r->Ok_0@),
{
    if urls.len() == 0 {
        return Err(SearchError::NoEligibleInstance);
    }
    let mut rng = rand::thread_rng();
    let index = draw_index(&mut rng, urls.len());
    match instance_at(urls, index) {
        Some(url) => {
            assert(strings_view(urls@)[index as int] == url@);
            Ok(url)
        },
        None => Err(SearchError::NoEligibleInstance),
    }
}

/// A random candidate of the cache's current set.
pub fn get_random_url_from_cache(cache: &Cache) -> (r: Result<String, SearchError>)
    ensures
        cache@.instances.len() == 0 <==> r is Err,
        r is Err ==> r == Err::<String, SearchError>(SearchError::NoEligibleInstance),
        r is Ok ==> cache@.instances.contains(r->Ok_0@),
{
    get_random_instance_url(&cache.instances)
}

} // verus!
