//! The two lookups that enrich a reply: an image search and a move list.
//!
//! Each lookup is one HTTP GET made by the caller. This module says which
//! address to ask, and what to make of the list that came back.

use crate::chance::draw;
use vstd::prelude::*;
use vstd::string::StringExecFns;

verus! {

/// Why a lookup gave no value.
#[derive(Clone, Copy, Debug, PartialEq, Eq, Structural)]
pub enum LookupError {
    /// The image search key is not configured.
    MissingSecret,
    /// The request did not complete.
    Network,
    /// The response was not of the expected shape.
    Malformed,
    /// The response held an empty list.
    NoResults,
}

/// One entry of an image search response.
#[derive(Clone, Debug, PartialEq, Eq)]
pub struct ImageSearchResult {
    pub image_url: String,
}

/// One entry of a move list response.
#[derive(Clone, Debug, PartialEq, Eq)]
pub struct MoveLookupResult {
    pub move_name: String,
}

/// The image URLs of a list of results, in order.
pub open spec fn image_urls(results: Seq<ImageSearchResult>) -> Seq<Seq<char>> {
    results.map_values(|r: ImageSearchResult| r.image_url@)
}

/// The move names of a list of results, in order.
pub open spec fn move_names(results: Seq<MoveLookupResult>) -> Seq<Seq<char>> {
    results.map_values(|r: MoveLookupResult| r.move_name@)
}

/// The address of the image search for a given key: a fixed query for
/// general-audience results in English. The key is inserted as it is.
pub open spec fn image_search_address(api_key: Seq<char>) -> Seq<char> {
    "https://api.giphy.com/v1/gifs/search?api_key="@ + api_key + "&q=squirtle&rating=g&lang=en"@
}

/// The address of the move list.
pub open spec fn move_list_address() -> Seq<char> {
    "https://pokeapi.co/api/v2/pokemon/squirtle"@
}

/// The address to GET for an image search with `api_key`.
pub fn image_search_url(api_key: &str) -> (url: String)
    ensures
        url@ == image_search_address(api_key@),
{
    let mut url = String::from_str("https://api.giphy.com/v1/gifs/search?api_key=");
    url.append(api_key);
    url.append("&q=squirtle&rating=g&lang=en");
    url
}

/// The address to GET for the move list.
pub fn move_list_url() -> (url: &'static str)
    ensures
        url@ == move_list_address(),
{
    "https://pokeapi.co/api/v2/pokemon/squirtle"
}

/// Starts an image lookup: the address to GET, or `MissingSecret` when no
/// key is configured.
pub fn image_request(api_key: Option<&str>) -> (request: Result<String, LookupError>)
    ensures
        api_key is None ==> request == Err::<String, LookupError>(LookupError::MissingSecret),
        api_key matches Some(key) ==> (request matches Ok(url) && url@ == image_search_address(
            key@,
        )),
{
    match api_key {
        Some(key) => Ok(image_search_url(key)),
        None => Err(LookupError::MissingSecret),
    }
}

/// The outcome of an image lookup once one entry has been drawn from the
/// response, or none because the list was empty.
pub fn image_from_draw(drawn: Option<&ImageSearchResult>) -> (found: Result<String, LookupError>)
    ensures
        match drawn {
            Some(entry) => (found matches Ok(url) && url@ == entry.image_url@),
            None => found == Err::<String, LookupError>(LookupError::NoResults),
        },
{
    match drawn {
        Some(entry) => Ok(entry.image_url.clone()),
        None => Err(LookupError::NoResults),
    }
}

/// The outcome of a move lookup once one entry has been drawn from the
/// response, or none because the list was empty.
pub fn move_from_draw(drawn: Option<&MoveLookupResult>) -> (found: Result<String, LookupError>)
    ensures
        match drawn {
            Some(entry) => (found matches Ok(name) && name@ == entry.move_name@),
            None => found == Err::<String, LookupError>(LookupError::NoResults),
        },
{
    match drawn {
        Some(entry) => Ok(entry.move_name.clone()),
        None => Err(LookupError::NoResults),
    }
}

/// Draws one image URL at random from a parsed response. An empty list is
/// `NoResults`; any other list gives the URL of one of its entries.
pub fn select_image(results: &Vec<ImageSearchResult>) -> (found: Result<String, LookupError>)
    ensures
        results@.len() == 0 <==> found is Err,
        found is Err ==> found == Err::<String, LookupError>(LookupError::NoResults),
        found matches Ok(url) ==> image_urls(results@).contains(url@),
{
    let drawn = draw(results.as_slice());
    proof {
        if let Some(entry) = drawn {
            let i = choose|i: int| 0 <= i < results@.len() && results@[i] == *entry;
            assert(image_urls(results@)[i] == entry.image_url@);
        }
    }
    image_from_draw(drawn)
}

/// Draws one move name at random from a parsed response. An empty list is
/// `NoResults`; any other list gives the name of one of its entries.
pub fn select_move(results: &Vec<MoveLookupResult>) -> (found: Result<String, LookupError>)
    ensures
        results@.len() == 0 <==> found is Err,
        found is Err ==> found == Err::<String, LookupError>(LookupError::NoResults),
        found matches Ok(name) ==> move_names(results@).contains(name@),
{
    let drawn = draw(results.as_slice());
    proof {
        if let Some(entry) = drawn {
            let i = choose|i: int| 0 <= i < results@.len() && results@[i] == *entry;
            assert(move_names(results@)[i] == entry.move_name@);
        }
    }
    move_from_draw(drawn)
}

/// Ends an image lookup. A failed fetch keeps its error; a fetched list is
/// handed to [`select_image`].
pub fn finish_image_lookup(fetched: Result<Vec<ImageSearchResult>, LookupError>) -> (found: Result<
    String,
    LookupError,
>)
    ensures
        match fetched {
            Err(e) => found == Err::<String, LookupError>(e),
            Ok(results) => {
                &&& results@.len() == 0 ==> found == Err::<String, LookupError>(
                    LookupError::NoResults,
                )
                &&& results@.len() > 0 ==> (found matches Ok(url) && image_urls(
                    results@,
                ).contains(url@))
            },
        },
{
    match fetched {
        Err(e) => Err(e),
        Ok(results) => select_image(&results),
    }
}

/// Ends a move lookup. A failed fetch keeps its error; a fetched list is
/// handed to [`select_move`].
pub fn finish_move_lookup(fetched: Result<Vec<MoveLookupResult>, LookupError>) -> (found: Result<
    String,
    LookupError,
>)
    ensures
        match fetched {
            Err(e) => found == Err::<String, LookupError>(e),
            Ok(results) => {
                &&& results@.len() == 0 ==> found == Err::<String, LookupError>(
                    LookupError::NoResults,
                )
                &&& results@.len() > 0 ==> (found matches Ok(name) && move_names(
                    results@,
                ).contains(name@))
            },
        },
{
    match fetched {
        Err(e) => Err(e),
        Ok(results) => select_move(&results),
    }
}

} // verus!
