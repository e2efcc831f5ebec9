use squirtle_bot::lookup::{
    finish_image_lookup, finish_move_lookup, image_from_draw, image_request, image_search_url,
    move_from_draw, move_list_url, select_image, select_move, ImageSearchResult, LookupError,
    MoveLookupResult,
};

fn image(url: &str) -> ImageSearchResult {
    ImageSearchResult { image_url: String::from(url) }
}

fn named(name: &str) -> MoveLookupResult {
    MoveLookupResult { move_name: String::from(name) }
}

#[test]
fn image_search_address_is_exact() {
    assert_eq!(
        image_search_url("abc123"),
        "https://api.giphy.com/v1/gifs/search?api_key=abc123&q=squirtle&rating=g&lang=en"
    );
    assert_eq!(
        image_search_url(""),
        "https://api.giphy.com/v1/gifs/search?api_key=&q=squirtle&rating=g&lang=en"
    );
}

#[test]
fn image_search_key_is_inserted_as_it_is() {
    assert_eq!(
        image_search_url("a b&c"),
        "https://api.giphy.com/v1/gifs/search?api_key=a b&c&q=squirtle&rating=g&lang=en"
    );
}

#[test]
fn move_list_address_is_exact() {
    assert_eq!(move_list_url(), "https://pokeapi.co/api/v2/pokemon/squirtle");
}

#[test]
fn image_request_needs_the_secret() {
    assert_eq!(image_request(None), Err(LookupError::MissingSecret));
    assert_eq!(
        image_request(Some("k")),
        Ok(String::from("https://api.giphy.com/v1/gifs/search?api_key=k&q=squirtle&rating=g&lang=en"))
    );
}

#[test]
fn empty_image_list_is_an_error() {
    assert_eq!(select_image(&Vec::new()), Err(LookupError::NoResults));
    assert_eq!(finish_image_lookup(Ok(Vec::new())), Err(LookupError::NoResults));
}

#[test]
fn empty_move_list_is_an_error() {
    assert_eq!(select_move(&Vec::new()), Err(LookupError::NoResults));
    assert_eq!(finish_move_lookup(Ok(Vec::new())), Err(LookupError::NoResults));
}

#[test]
fn single_result_is_selected() {
    assert_eq!(select_image(&vec![image("http://example.com/img.gif")]), Ok(String::from("http://example.com/img.gif")));
    assert_eq!(select_move(&vec![named("Water Gun")]), Ok(String::from("Water Gun")));
}

#[test]
fn selected_image_is_one_of_the_results() {
    let results = vec![image("a"), image("b"), image("c"), image("d")];
    let mut seen = [false; 4];
    for _ in 0..800 {
        let url = select_image(&results).unwrap();
        let at = results.iter().position(|r| r.image_url == url);
        assert!(at.is_some());
        seen[at.unwrap()] = true;
    }
    assert_eq!(seen, [true; 4]);
    assert_eq!(results, vec![image("a"), image("b"), image("c"), image("d")]);
}

#[test]
fn selected_move_is_one_of_the_results() {
    let results = vec![named("tackle"), named("bubble"), named("bite")];
    let mut seen = [false; 3];
    for _ in 0..600 {
        let name = finish_move_lookup(Ok(results.clone())).unwrap();
        let at = results.iter().position(|r| r.move_name == name);
        assert!(at.is_some());
        seen[at.unwrap()] = true;
    }
    assert_eq!(seen, [true; 3]);
}

#[test]
fn fetch_errors_pass_through() {
    for e in [
        LookupError::MissingSecret,
        LookupError::Network,
        LookupError::Malformed,
        LookupError::NoResults,
    ] {
        assert_eq!(finish_image_lookup(Err(e)), Err(e));
        assert_eq!(finish_move_lookup(Err(e)), Err(e));
    }
}

#[test]
fn a_drawn_entry_gives_its_field() {
    assert_eq!(image_from_draw(Some(&image("u"))), Ok(String::from("u")));
    assert_eq!(image_from_draw(None), Err(LookupError::NoResults));
    assert_eq!(move_from_draw(Some(&named("m"))), Ok(String::from("m")));
    assert_eq!(move_from_draw(None), Err(LookupError::NoResults));
}
