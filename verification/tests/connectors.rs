use m_rs_lib::connectors::cached_medium::{cache_step, fetch_step, preview_key, CacheStep, FetchStep};
use m_rs_lib::connectors::graphql_medium::{
    creator_request_body, first_post_result, first_user_result, one_line_query,
    post_previews_request_body, post_request_body,
};
use m_rs_lib::types::medium::creator_page::{UserResult, UserResultInner};
use m_rs_lib::types::medium::post::{PostResult, PostResultInner};

#[test]
fn preview_keys() {
    assert_eq!(preview_key("ann", None), "ann - default");
    assert_eq!(preview_key("ann", Some("abc")), "ann - abc");
}

#[test]
fn query_on_one_line() {
    assert_eq!(one_line_query("query {\n  a\n}\n"), "query {   a } ");
    assert_eq!(one_line_query(""), "");
    assert_eq!(one_line_query("x"), "x");
}

#[test]
fn request_bodies() {
    assert_eq!(
        post_request_body("p1", "q\nr"),
        "[{\"operationName\":\"PostPageQuery\",\"variables\":{\"postId\":\"p1\",\"postMeteringOptions\":{}},\"query\":\"q r\"}]"
    );
    assert_eq!(
        post_previews_request_body("ann", None, "q"),
        "[{\"operationName\":\"CreatorsQuery\",\"variables\":{\"homepagePostsFrom\":\"\",\"username\":\"ann\",\"creator_pagePostsLimit\":25},\"query\":\"q\"}]"
    );
    assert_eq!(
        post_previews_request_body("ann", Some("c2"), "q"),
        "[{\"operationName\":\"CreatorsQuery\",\"variables\":{\"homepagePostsFrom\":\"c2\",\"username\":\"ann\",\"creator_pagePostsLimit\":25},\"query\":\"q\"}]"
    );
    assert_eq!(
        creator_request_body("ann", "q"),
        "[{\"operationName\":\"CreatorsQuery\",\"variables\":{\"username\":\"ann\",\"creator_pagePostsLimit\":25},\"query\":\"q\"}]"
    );
}

#[test]
fn first_results() {
    let posts = vec![
        PostResult { data: PostResultInner { post_result: 1u32 } },
        PostResult { data: PostResultInner { post_result: 2u32 } },
    ];
    assert_eq!(first_post_result(posts), 1);
    let users = vec![UserResult { data: UserResultInner { user_result: "a".to_string() } }];
    assert_eq!(first_user_result(users), "a");
}


#[test]
fn cache_hit_is_served() {
    assert!(matches!(cache_step(Some(7u32)), CacheStep::Serve(7)));
}

#[test]
fn cache_miss_fetches() {
    assert!(matches!(cache_step::<u32>(None), CacheStep::Fetch));
}

#[test]
fn fetched_success_is_stored_and_served() {
    assert!(matches!(fetch_step(Ok::<u32, String>(9)), FetchStep::StoreAndServe(9)));
}

#[test]
fn failed_fetch_is_not_stored() {
    match fetch_step(Err::<u32, String>("down".to_string())) {
        FetchStep::Fail(e) => assert_eq!(e, "down"),
        FetchStep::StoreAndServe(_) => panic!("a failure must not be stored"),
    }
}
