use vstd::prelude::*;
use crate::error::MALError;

verus! {

/// The decimal digit of `d`, for `d < 10`.
pub open spec fn digit_char(d: nat) -> char {
    "0123456789"@[d as int]
}

/// The decimal form of `n`, without leading zeros.
pub open spec fn decimal(n: nat) -> Seq<char>
    decreases n,
{
    if n < 10 {
        seq![digit_char(n)]
    } else {
        decimal(n / 10) + seq![digit_char(n % 10)]
    }
}

/// Writes `n` in decimal.
pub fn decimal_string(n: u64) -> (r: String)
    ensures
        r@ == decimal(n as nat),
    decreases n,
{
    let digits = "0123456789";
    proof {
        reveal_strlit("0123456789");
    }
    if n < 10 {
        let d = digits.substring_char(n as usize, n as usize + 1);
        assert(d@ =~= seq![digit_char(n as nat)]);
        String::from_str(d)
    } else {
        let mut s = decimal_string(n / 10);
        let k = (n % 10) as usize;
        let d = digits.substring_char(k, k + 1);
        assert(d@ =~= seq![digit_char((n % 10) as nat)]);
        s.append(d);
        s
    }
}

/// The root of the API.
pub open spec fn api_root() -> Seq<char> {
    "https://api.myanimelist.net/v2"@
}

/// The page size asked for when none is given: the largest the API allows.
pub const DEFAULT_LIMIT: u8 = 100;

/// The limit of a listing, `DEFAULT_LIMIT` when none is given.
pub open spec fn limit_or_default(limit: Option<u8>) -> nat {
    match limit {
        Some(l) => l as nat,
        None => DEFAULT_LIMIT as nat,
    }
}

fn limit_text(limit: Option<u8>) -> (r: String)
    ensures
        r@ == decimal(limit_or_default(limit)),
{
    match limit {
        Some(l) => decimal_string(l as u64),
        None => decimal_string(DEFAULT_LIMIT as u64),
    }
}

fn api_url(path: &str) -> (r: String)
    ensures
        r@ == api_root() + path@,
{
    let mut r = String::from_str("https://api.myanimelist.net/v2");
    r.append(path);
    r
}

/// Search of anime by title.
pub fn anime_list_url(query: &str, limit: Option<u8>) -> (r: String)
    ensures
        r@ == api_root() + "/anime?q="@ + query@ + "&limit="@ + decimal(limit_or_default(limit)),
{
    let mut r = api_url("/anime?q=");
    r.append(query);
    r.append("&limit=");
    r.append(limit_text(limit).as_str());
    r
}

/// Every field of an anime's details that the API offers.
pub open spec fn all_anime_fields() -> Seq<char> {
    "id,title,main_picture,alternative_titles,start_date,end_date,synopsis,mean,rank,popularity,num_list_users,num_scoring_users,nsfw,created_at,updated_at,media_type,status,genres,my_list_status,num_episodes,start_season,broadcast,source,average_episode_duration,rating,pictures,background,related_anime,related_manga,recommendations,studios,statistics"@
}

/// Details of one anime, with the given comma-separated fields, or with every
/// field when none are named.
pub fn anime_details_url(id: u32, fields: Option<&str>) -> (r: String)
    ensures
        fields matches Some(f) ==> r@ == api_root() + "/anime/"@ + decimal(id as nat) + "?fields="@
            + f@,
        fields is None ==> r@ == api_root() + "/anime/"@ + decimal(id as nat) + "?fields="@
            + all_anime_fields(),
{
    let mut r = api_url("/anime/");
    r.append(decimal_string(id as u64).as_str());
    match fields {
        Some(f) => {
            r.append("?fields=");
            r.append(f);
        },
        None => {
            r.append("?fields=");
            r.append(
                "id,title,main_picture,alternative_titles,start_date,end_date,synopsis,mean,rank,popularity,num_list_users,num_scoring_users,nsfw,created_at,updated_at,media_type,status,genres,my_list_status,num_episodes,start_season,broadcast,source,average_episode_duration,rating,pictures,background,related_anime,related_manga,recommendations,studios,statistics",
            );
        },
    }
    r
}

/// Anime ranked by `ranking_type` (`all`, `airing`, `bypopularity`, ...).
pub fn anime_ranking_url(ranking_type: &str, limit: Option<u8>) -> (r: String)
    ensures
        r@ == api_root() + "/anime/ranking?ranking_type="@ + ranking_type@ + "&limit="@ + decimal(
            limit_or_default(limit),
        ),
{
    let mut r = api_url("/anime/ranking?ranking_type=");
    r.append(ranking_type);
    r.append("&limit=");
    r.append(limit_text(limit).as_str());
    r
}

/// The anime of one season (`winter`, `spring`, `summer`, `fall`) of a year.
pub fn seasonal_anime_url(season: &str, year: u32, limit: Option<u8>) -> (r: String)
    ensures
        r@ == api_root() + "/anime/season/"@ + decimal(year as nat) + "/"@ + season@ + "?limit="@
            + decimal(limit_or_default(limit)),
{
    let mut r = api_url("/anime/season/");
    r.append(decimal_string(year as u64).as_str());
    r.append("/");
    r.append(season);
    r.append("?limit=");
    r.append(limit_text(limit).as_str());
    r
}

/// The anime suggested to the current user.
pub fn suggested_anime_url(limit: Option<u8>) -> (r: String)
    ensures
        r@ == api_root() + "/anime/suggestions?limit="@ + decimal(limit_or_default(limit)),
{
    let mut r = api_url("/anime/suggestions?limit=");
    r.append(limit_text(limit).as_str());
    r
}

/// The user's list entry of one anime, to update or delete.
pub fn list_status_url(id: u32) -> (r: String)
    ensures
        r@ == api_root() + "/anime/"@ + decimal(id as nat) + "/my_list_status"@,
{
    let mut r = api_url("/anime/");
    r.append(decimal_string(id as u64).as_str());
    r.append("/my_list_status");
    r
}

/// The current user's anime list with list statuses.
pub fn user_anime_list_url() -> (r: String)
    ensures
        r@ == api_root() + "/users/@me/animelist?fields=list_status&limit=4"@,
{
    api_url("/users/@me/animelist?fields=list_status&limit=4")
}

/// All forum boards.
pub fn forum_boards_url() -> (r: String)
    ensures
        r@ == api_root() + "/forum/boards"@,
{
    api_url("/forum/boards")
}

/// One forum topic with up to `limit` posts.
pub fn forum_topic_detail_url(topic_id: u32, limit: Option<u8>) -> (r: String)
    ensures
        r@ == api_root() + "/forum/topic/"@ + decimal(topic_id as nat) + "?limit="@ + decimal(
            limit_or_default(limit),
        ),
{
    let mut r = api_url("/forum/topic/");
    r.append(decimal_string(topic_id as u64).as_str());
    r.append("?limit=");
    r.append(limit_text(limit).as_str());
    r
}

/// The current user with anime statistics.
pub fn my_user_info_url() -> (r: String)
    ensures
        r@ == api_root() + "/users/@me?fields=anime_statistics"@,
{
    api_url("/users/@me?fields=anime_statistics")
}

/// `name=value,` for a given value, nothing otherwise.
pub open spec fn topic_filter(name: Seq<char>, value: Option<Seq<char>>) -> Seq<char> {
    match value {
        Some(v) => name + "="@ + v + ","@,
        None => Seq::empty(),
    }
}

pub open spec fn decimal_opt(n: Option<u32>) -> Option<Seq<char>> {
    match n {
        Some(x) => Some(decimal(x as nat)),
        None => None,
    }
}

pub open spec fn text_opt(s: Option<String>) -> Option<Seq<char>> {
    match s {
        Some(x) => Some(x@),
        None => None,
    }
}

/// The comma-separated filters of a forum topic search: the given filters in
/// a fixed order, then the limit (`DEFAULT_LIMIT` when none is given).
pub open spec fn forum_topics_query(
    board_id: Option<u32>,
    subboard_id: Option<u32>,
    query: Option<String>,
    topic_user_name: Option<String>,
    user_name: Option<String>,
    limit: Option<u32>,
) -> Seq<char> {
    topic_filter("board_id"@, decimal_opt(board_id)) + topic_filter(
        "subboard_id"@,
        decimal_opt(subboard_id),
    ) + topic_filter("q"@, text_opt(query)) + topic_filter(
        "topic_user_name"@,
        text_opt(topic_user_name),
    ) + topic_filter("user_name"@, text_opt(user_name)) + "limit="@ + decimal(
        match limit {
            Some(l) => l as nat,
            None => DEFAULT_LIMIT as nat,
        },
    )
}

pub open spec fn str_opt(s: Option<&str>) -> Option<Seq<char>> {
    match s {
        Some(x) => Some(x@),
        None => None,
    }
}

fn borrow_text(o: &Option<String>) -> (r: Option<&str>)
    ensures
        str_opt(r) == text_opt(*o),
{
    match o {
        Some(x) => Some(x.as_str()),
        None => None,
    }
}

fn decimal_text(n: Option<u32>) -> (r: Option<String>)
    ensures
        text_opt(r) == decimal_opt(n),
{
    match n {
        Some(x) => Some(decimal_string(x as u64)),
        None => None,
    }
}

fn push_filter(r: &mut String, name: &str, value: Option<&str>)
    ensures
        final(r)@ == old(r)@ + topic_filter(name@, str_opt(value)),
{
    match value {
        Some(v) => {
            r.append(name);
            r.append("=");
            r.append(v);
            r.append(",");
            assert(final(r)@ =~= old(r)@ + topic_filter(name@, str_opt(value)));
        },
        None => {
            assert(old(r)@ + Seq::<char>::empty() =~= old(r)@);
        },
    }
}

/// A search of forum topics.
pub fn forum_topics_url(
    board_id: Option<u32>,
    subboard_id: Option<u32>,
    query: Option<String>,
    topic_user_name: Option<String>,
    user_name: Option<String>,
    limit: Option<u32>,
) -> (r: String)
    ensures
        r@ == api_root() + "/forum/topics?"@ + forum_topics_query(
            board_id,
            subboard_id,
            query,
            topic_user_name,
            user_name,
            limit,
        ),
{
    let mut r = api_url("/forum/topics?");
    let ghost start = r@;
    let b = decimal_text(board_id);
    let sb = decimal_text(subboard_id);
    push_filter(&mut r, "board_id", borrow_text(&b));
    let ghost s1 = r@;
    push_filter(&mut r, "subboard_id", borrow_text(&sb));
    let ghost s2 = r@;
    push_filter(&mut r, "q", borrow_text(&query));
    let ghost s3 = r@;
    push_filter(&mut r, "topic_user_name", borrow_text(&topic_user_name));
    let ghost s4 = r@;
    push_filter(&mut r, "user_name", borrow_text(&user_name));
    let ghost s5 = r@;
    r.append("limit=");
    let l = match limit {
        Some(x) => decimal_string(x as u64),
        None => decimal_string(DEFAULT_LIMIT as u64),
    };
    r.append(l.as_str());
    let ghost f1 = topic_filter("board_id"@, decimal_opt(board_id));
    let ghost f2 = topic_filter("subboard_id"@, decimal_opt(subboard_id));
    let ghost f3 = topic_filter("q"@, text_opt(query));
    let ghost f4 = topic_filter("topic_user_name"@, text_opt(topic_user_name));
    let ghost f5 = topic_filter("user_name"@, text_opt(user_name));
    let ghost tail = "limit="@ + l@;
    assert(s1 == start + f1);
    assert(s2 == start + f1 + f2);
    assert(s3 == start + f1 + f2 + f3);
    assert(s4 == start + f1 + f2 + f3 + f4);
    assert(s5 == start + f1 + f2 + f3 + f4 + f5);
    assert(r@ =~= s5 + tail);
    assert(forum_topics_query(board_id, subboard_id, query, topic_user_name, user_name, limit)
        == f1 + f2 + f3 + f4 + f5 + tail);
    assert(r@ =~= start + (f1 + f2 + f3 + f4 + f5 + tail));
    r
}

/// The message of a failed deletion.
pub open spec fn not_found_message(id: u32) -> Seq<char> {
    "Anime "@ + decimal(id as nat) + " not found"@
}

/// Whether `o` holds the text `t`.
pub open spec fn holds_text(o: Option<String>, t: Seq<char>) -> bool {
    o matches Some(m) && m@ == t
}

/// What a reply to deleting a list entry means: 404 says the anime is not on
/// the list, any other status is success.
pub fn delete_outcome(id: u32, status: u16) -> (r: Result<(), MALError>)
    ensures
        status == 404 ==> r is Err,
        r matches Err(e) ==> (e.error@ == "404"@ && e.info is None && holds_text(
            e.message,
            not_found_message(id),
        )),
        status != 404 ==> r is Ok,
{
    if status == 404 {
        let mut msg = String::from_str("Anime ");
        msg.append(decimal_string(id as u64).as_str());
        msg.append(" not found");
        Err(MALError::new(msg.as_str(), "404", None))
    } else {
        Ok(())
    }
}

} // verus!
