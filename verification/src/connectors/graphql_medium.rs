//! Request bodies of the Medium GraphQL API, and the answers taken from its
//! replies.

use vstd::prelude::*;
use crate::types::medium::creator_page::UserResult;
use crate::types::medium::post::PostResult;

verus! {

/// A query text on one line: every newline becomes a space.
pub open spec fn one_line(q: Seq<char>) -> Seq<char> {
    Seq::new(q.len(), |i: int| if q[i] == '\n' { ' ' } else { q[i] })
}

/// Puts a query text on one line, as it travels inside a JSON string.
pub fn one_line_query(q: &str) -> (r: String)
    ensures
        r@ == one_line(q@),
{
    let n = q.unicode_len();
    let mut r = String::new();
    let mut start: usize = 0;
    let mut i: usize = 0;
    proof {
        reveal_strlit(" ");
    }
    while i < n
        invariant
            n == q@.len(),
            start <= i <= n,
            r@ == one_line(q@).subrange(0, start as int),
            forall|j: int| start <= j < i ==> q@[j] != '\n',
        decreases n - i,
    {
        if q.get_char(i) == '\n' {
            let ghost before = r@;
            r.append(q.substring_char(start, i));
            r.append(" ");
            proof {
                reveal_strlit(" ");
            }
            assert(r@ =~= before + q@.subrange(start as int, i as int) + seq![' ']);
            assert forall|j: int| 0 <= j < i + 1 implies r@[j] == one_line(q@).subrange(
                0,
                i + 1,
            )[j] by {
                if j < start {
                    assert(r@[j] == before[j]);
                } else if j < i {
                    assert(r@[j] == q@[j]);
                }
            }
            assert(r@ =~= one_line(q@).subrange(0, i + 1));
            start = i + 1;
        }
        i = i + 1;
    }
    let ghost before = r@;
    r.append(q.substring_char(start, n));
    assert forall|j: int| 0 <= j < n implies r@[j] == one_line(q@)[j] by {
        if j < start {
            assert(r@[j] == before[j]);
        } else {
            assert(r@[j] == q@[j]);
        }
    }
    assert(r@ =~= one_line(q@));
    r
}

/// Body of the query for one post.
pub open spec fn post_request(post_id: Seq<char>, query: Seq<char>) -> Seq<char> {
    "[{\"operationName\":\"PostPageQuery\",\"variables\":{\"postId\":\""@ + post_id
        + "\",\"postMeteringOptions\":{}},\"query\":\""@ + one_line(query) + "\"}]"@
}

/// Body of the query for a page of a creator's post previews; the first
/// page has an empty cursor.
pub open spec fn post_previews_request(
    username: Seq<char>,
    from: Option<Seq<char>>,
    query: Seq<char>,
) -> Seq<char> {
    "[{\"operationName\":\"CreatorsQuery\",\"variables\":{\"homepagePostsFrom\":\""@ + match from {
        Some(f) => f,
        None => seq![],
    } + "\",\"username\":\""@ + username + "\",\"creator_pagePostsLimit\":25},\"query\":\""@
        + one_line(query) + "\"}]"@
}

/// Body of the query for a creator.
pub open spec fn creator_request(username: Seq<char>, query: Seq<char>) -> Seq<char> {
    "[{\"operationName\":\"CreatorsQuery\",\"variables\":{\"username\":\""@ + username
        + "\",\"creator_pagePostsLimit\":25},\"query\":\""@ + one_line(query) + "\"}]"@
}

/// Body of the query for the post `post_id`, with the query text `query`.
pub fn post_request_body(post_id: &str, query: &str) -> (r: String)
    ensures
        r@ == post_request(post_id@, query@),
{
    let q = one_line_query(query);
    String::from_str("[{\"operationName\":\"PostPageQuery\",\"variables\":{\"postId\":\"").concat(
        post_id,
    ).concat("\",\"postMeteringOptions\":{}},\"query\":\"").concat(q.as_str()).concat("\"}]")
}

/// Body of the query for the page of `username`'s post previews that starts
/// at `from`, with the query text `query`.
pub fn post_previews_request_body(username: &str, from: Option<&str>, query: &str) -> (r: String)
    ensures
        r@ == post_previews_request(
            username@,
            match from {
                Some(f) => Some(f@),
                None => None,
            },
            query@,
        ),
{
    let q = one_line_query(query);
    let cursor = match from {
        Some(f) => f,
        None => "",
    };
    proof {
        reveal_strlit("");
    }
    String::from_str(
        "[{\"operationName\":\"CreatorsQuery\",\"variables\":{\"homepagePostsFrom\":\"",
    ).concat(cursor).concat("\",\"username\":\"").concat(username).concat(
        "\",\"creator_pagePostsLimit\":25},\"query\":\"",
    ).concat(q.as_str()).concat("\"}]")
}

/// Body of the query for the creator `username`, with the query text `query`.
pub fn creator_request_body(username: &str, query: &str) -> (r: String)
    ensures
        r@ == creator_request(username@, query@),
{
    let q = one_line_query(query);
    String::from_str("[{\"operationName\":\"CreatorsQuery\",\"variables\":{\"username\":\"").concat(
        username,
    ).concat("\",\"creator_pagePostsLimit\":25},\"query\":\"").concat(q.as_str()).concat("\"}]")
}

/// A text with no newline in it.
pub open spec fn single_line(s: Seq<char>) -> bool {
    forall|i: int| 0 <= i < s.len() ==> s[i] != '\n'
}

/// The character that stands for `c` in a query put on one line.
pub open spec fn flattened(c: char) -> char {
    if c == '\n' {
        ' '
    } else {
        c
    }
}

/// Whether `body` ends with the query text `query` put on one line (each
/// newline a space, every other character kept in its place), followed by
/// the closing `"}]`.
pub open spec fn ends_with_query(body: Seq<char>, query: Seq<char>) -> bool {
    let k = body.len() - query.len() - 3;
    &&& k >= 0
    &&& forall|i: int| 0 <= i < query.len() ==> body[k + i] == flattened(#[trigger] query[i])
    &&& body[body.len() - 3] == '"'
    &&& body[body.len() - 2] == '}'
    &&& body[body.len() - 1] == ']'
}

proof fn lemma_single_line_concat(a: Seq<char>, b: Seq<char>)
    requires
        single_line(a),
        single_line(b),
    ensures
        single_line(a + b),
{
    assert forall|i: int| 0 <= i < (a + b).len() implies (a + b)[i] != '\n' by {
        if i < a.len() {
            assert((a + b)[i] == a[i]);
        } else {
            assert((a + b)[i] == b[i - a.len()]);
        }
    }
}

proof fn lemma_one_line_single(q: Seq<char>)
    ensures
        single_line(one_line(q)),
        one_line(q).len() == q.len(),
{
}

proof fn lemma_ends_with_query(prefix: Seq<char>, query: Seq<char>)
    ensures
        ends_with_query(prefix + one_line(query) + "\"}]"@, query),
{
    reveal_strlit("\"}]");
    let b = prefix + one_line(query) + "\"}]"@;
    assert forall|i: int| 0 <= i < query.len() implies b[prefix.len() + i] == flattened(
        #[trigger] query[i],
    ) by {
        assert(b[prefix.len() + i] == one_line(query)[i]);
    }
}

/// Law: a post request carries the query on one line at its end, and holds
/// no newline when the post id holds none.
pub proof fn lemma_post_request_one_line(post_id: Seq<char>, query: Seq<char>)
    ensures
        ends_with_query(post_request(post_id, query), query),
        single_line(post_id) ==> single_line(post_request(post_id, query)),
{
    let a = "[{\"operationName\":\"PostPageQuery\",\"variables\":{\"postId\":\""@;
    let b = "\",\"postMeteringOptions\":{}},\"query\":\""@;
    let c = "\"}]"@;
    lemma_ends_with_query(a + post_id + b, query);
    if single_line(post_id) {
        reveal_strlit("[{\"operationName\":\"PostPageQuery\",\"variables\":{\"postId\":\"");
        reveal_strlit("\",\"postMeteringOptions\":{}},\"query\":\"");
        reveal_strlit("\"}]");
        lemma_one_line_single(query);
        lemma_single_line_concat(a, post_id);
        lemma_single_line_concat(a + post_id, b);
        lemma_single_line_concat(a + post_id + b, one_line(query));
        lemma_single_line_concat(a + post_id + b + one_line(query), c);
    }
}

/// Law: a request for a page of post previews carries the query on one line
/// at its end, and holds no newline when the username and the cursor hold
/// none.
pub proof fn lemma_post_previews_request_one_line(
    username: Seq<char>,
    from: Option<Seq<char>>,
    query: Seq<char>,
)
    ensures
        ends_with_query(post_previews_request(username, from, query), query),
        single_line(username) && (from matches Some(f) ==> single_line(f)) ==> single_line(
            post_previews_request(username, from, query),
        ),
{
    let a = "[{\"operationName\":\"CreatorsQuery\",\"variables\":{\"homepagePostsFrom\":\""@;
    let cursor = match from {
        Some(f) => f,
        None => seq![],
    };
    let b = "\",\"username\":\""@;
    let c = "\",\"creator_pagePostsLimit\":25},\"query\":\""@;
    let d = "\"}]"@;
    lemma_ends_with_query(a + cursor + b + username + c, query);
    if single_line(username) && (from matches Some(f) ==> single_line(f)) {
        reveal_strlit("[{\"operationName\":\"CreatorsQuery\",\"variables\":{\"homepagePostsFrom\":\"");
        reveal_strlit("\",\"username\":\"");
        reveal_strlit("\",\"creator_pagePostsLimit\":25},\"query\":\"");
        reveal_strlit("\"}]");
        assert(single_line(cursor));
        lemma_one_line_single(query);
        lemma_single_line_concat(a, cursor);
        lemma_single_line_concat(a + cursor, b);
        lemma_single_line_concat(a + cursor + b, username);
        lemma_single_line_concat(a + cursor + b + username, c);
        lemma_single_line_concat(a + cursor + b + username + c, one_line(query));
        lemma_single_line_concat(a + cursor + b + username + c + one_line(query), d);
    }
}

/// Law: a creator request carries the query on one line at its end, and
/// holds no newline when the username holds none.
pub proof fn lemma_creator_request_one_line(username: Seq<char>, query: Seq<char>)
    ensures
        ends_with_query(creator_request(username, query), query),
        single_line(username) ==> single_line(creator_request(username, query)),
{
    let a = "[{\"operationName\":\"CreatorsQuery\",\"variables\":{\"username\":\""@;
    let c = "\",\"creator_pagePostsLimit\":25},\"query\":\""@;
    let d = "\"}]"@;
    lemma_ends_with_query(a + username + c, query);
    if single_line(username) {
        reveal_strlit("[{\"operationName\":\"CreatorsQuery\",\"variables\":{\"username\":\"");
        reveal_strlit("\",\"creator_pagePostsLimit\":25},\"query\":\"");
        reveal_strlit("\"}]");
        lemma_one_line_single(query);
        lemma_single_line_concat(a, username);
        lemma_single_line_concat(a + username, c);
        lemma_single_line_concat(a + username + c, one_line(query));
        lemma_single_line_concat(a + username + c + one_line(query), d);
    }
}

/// The answer of a post query: the payload of the first reply.
pub fn first_post_result<T>(results: Vec<PostResult<T>>) -> (r: T)
    requires
        results.len() > 0,
    ensures
        r == results@[0].data.post_result,
{
    let mut results = results;
    let first = results.remove(0);
    first.data.post_result
}

/// The answer of a user query: the payload of the first reply.
pub fn first_user_result<T>(results: Vec<UserResult<T>>) -> (r: T)
    requires
        results.len() > 0,
    ensures
        r == results@[0].data.user_result,
{
    let mut results = results;
    let first = results.remove(0);
    first.data.user_result
}

} // verus!
