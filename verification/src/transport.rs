//! Helpers for the REST transport and id generation: URL assembly, the
//! status classification of responses, and the opaque ids the streaming
//! layer assigns.

use vstd::prelude::*;

use crate::error::AppError;
use crate::frames::{kind_name, spec_kind_name};
use crate::models::SubscriptionType;

verus! {

/// `s` without its trailing occurrences of `c`.
pub open spec fn spec_trim_end(s: Seq<char>, c: char) -> Seq<char>
    decreases s.len(),
{
    if s.len() > 0 && s.last() == c {
        spec_trim_end(s.drop_last(), c)
    } else {
        s
    }
}

/// `s` without its leading occurrences of `c`.
pub open spec fn spec_trim_start(s: Seq<char>, c: char) -> Seq<char>
    decreases s.len(),
{
    if s.len() > 0 && s[0] == c {
        spec_trim_start(s.drop_first(), c)
    } else {
        s
    }
}

/// `s` without any occurrence of `c`.
pub open spec fn spec_remove_char(s: Seq<char>, c: char) -> Seq<char>
    decreases s.len(),
{
    if s.len() == 0 {
        Seq::<char>::empty()
    } else if s[0] == c {
        spec_remove_char(s.drop_first(), c)
    } else {
        seq![s[0]] + spec_remove_char(s.drop_first(), c)
    }
}

/// The full URL of a request: base and path joined by exactly one slash.
pub open spec fn spec_build_url(base: Seq<char>, path: Seq<char>) -> Seq<char> {
    spec_trim_end(base, '/') + "/"@ + spec_trim_start(path, '/')
}

/// Joins the base URL and a path with exactly one slash between them.
pub fn build_url(base: &str, path: &str) -> (r: String)
    ensures
        r@ == spec_build_url(base@, path@),
{
    let blen = base.unicode_len();
    let mut end: usize = blen;
    proof {
        assert(base@.subrange(0, blen as int) =~= base@);
    }
    while end > 0 && base.get_char(end - 1) == '/'
        invariant
            blen == base@.len(),
            end <= blen,
            spec_trim_end(base@, '/') == spec_trim_end(base@.subrange(0, end as int), '/'),
        decreases end,
    {
        proof {
            assert(base@.subrange(0, end as int).last() == base@[end - 1]);
            assert(base@.subrange(0, end as int).drop_last() =~= base@.subrange(0, end - 1));
        }
        end = end - 1;
    }
    proof {
        if end > 0 {
            assert(base@.subrange(0, end as int).last() == base@[end - 1]);
        }
        assert(spec_trim_end(base@.subrange(0, end as int), '/') == base@.subrange(0, end as int));
    }
    let plen = path.unicode_len();
    let mut start: usize = 0;
    proof {
        assert(path@.subrange(0, plen as int) =~= path@);
    }
    while start < plen && path.get_char(start) == '/'
        invariant
            plen == path@.len(),
            start <= plen,
            spec_trim_start(path@, '/') == spec_trim_start(
                path@.subrange(start as int, plen as int),
                '/',
            ),
        decreases plen - start,
    {
        proof {
            assert(path@.subrange(start as int, plen as int)[0] == path@[start as int]);
            assert(path@.subrange(start as int, plen as int).drop_first() =~= path@.subrange(
                start as int + 1,
                plen as int,
            ));
        }
        start = start + 1;
    }
    proof {
        if start < plen {
            assert(path@.subrange(start as int, plen as int)[0] == path@[start as int]);
        }
        assert(spec_trim_start(path@.subrange(start as int, plen as int), '/') == path@.subrange(
            start as int,
            plen as int,
        ));
    }
    let mut r = base.substring_char(0, end).to_owned();
    r.append("/");
    r.append(path.substring_char(start, plen));
    r
}

/// How a REST response status is surfaced: 200, 201 and 202 succeed; 401,
/// 404 and 429 map to their typed errors; anything else is unexpected.
pub open spec fn spec_status_error(status: u16) -> Option<AppError> {
    if status == 200 || status == 201 || status == 202 {
        None
    } else if status == 401 {
        Some(AppError::Unauthorized)
    } else if status == 404 {
        Some(AppError::NotFound)
    } else if status == 429 {
        Some(AppError::RateLimitExceeded)
    } else {
        Some(AppError::Unexpected(status))
    }
}

/// Classifies a REST response status.
pub fn status_error(status: u16) -> (r: Option<AppError>)
    ensures
        r == spec_status_error(status),
{
    if status == 200 || status == 201 || status == 202 {
        None
    } else if status == 401 {
        Some(AppError::Unauthorized)
    } else if status == 404 {
        Some(AppError::NotFound)
    } else if status == 429 {
        Some(AppError::RateLimitExceeded)
    } else {
        Some(AppError::Unexpected(status))
    }
}

/// A demo environment is recognized by its REST base URL.
pub open spec fn spec_is_demo(base_url: Seq<char>) -> bool {
    crate::strutil::spec_contains(base_url, "demo"@)
}

/// Whether the REST base URL names the demo environment.
pub fn is_demo_environment(base_url: &str) -> (r: bool)
    ensures
        r == spec_is_demo(base_url@),
{
    crate::strutil::str_contains(base_url, "demo")
}

/// The adapter-set names to probe, in order: the demo triple for a demo
/// REST base URL, the production triple otherwise.
pub fn adapter_sets_for(base_url: &str) -> (r: Vec<String>)
    ensures
        spec_is_demo(base_url@) ==> r.deep_view() == seq![
            "DEMO-igindexdemo"@,
            "DEMO-igstreamer"@,
            "DEMO-iggroup"@,
        ],
        !spec_is_demo(base_url@) ==> r.deep_view() == seq![
            "PROD-igindexlive"@,
            "PROD-ig"@,
            "PROD-iggroup"@,
        ],
{
    let mut r: Vec<String> = Vec::new();
    if is_demo_environment(base_url) {
        r.push("DEMO-igindexdemo".to_owned());
        r.push("DEMO-igstreamer".to_owned());
        r.push("DEMO-iggroup".to_owned());
        proof {
            assert(r.deep_view() =~~= seq![
                "DEMO-igindexdemo"@,
                "DEMO-igstreamer"@,
                "DEMO-iggroup"@,
            ]);
        }
    } else {
        r.push("PROD-igindexlive".to_owned());
        r.push("PROD-ig".to_owned());
        r.push("PROD-iggroup".to_owned());
        proof {
            assert(r.deep_view() =~~= seq!["PROD-igindexlive"@, "PROD-ig"@, "PROD-iggroup"@]);
        }
    }
    r
}

/// Relies on `uuid::Uuid::new_v4` and its `Display` form: a fresh random
/// version-4 UUID, rendered as the 36-character hyphenated text. Nothing
/// is assumed about which value comes back. The draw aborts where the
/// operating system's randomness source fails — an environmental
/// condition, not a function of any input, so no precondition can
/// exclude it.
#[verifier::external_body]
fn uuid_v4_string() -> (r: String)
    ensures
        r@.len() == 36,
{
    uuid::Uuid::new_v4().to_string()
}

/// A fresh opaque subscription id: the kind's name, a hyphen, and a random
/// UUID. Distinct calls are expected, not guaranteed, to differ; the
/// registry replaces on collision.
pub fn fresh_subscription_id(kind: SubscriptionType) -> (r: String)
    ensures
        r@.len() == spec_kind_name(kind).len() + 37,
        r@.subrange(0, spec_kind_name(kind).len() as int + 1) == spec_kind_name(kind) + "-"@,
    {
    let mut r = kind_name(kind);
    proof {
        reveal_strlit("-");
    }
    r.append("-");
    r.append(uuid_v4_string().as_str());
    proof {
        assert(r@.subrange(0, spec_kind_name(kind).len() as int + 1) =~= spec_kind_name(kind)
            + "-"@);
    }
    r
}

/// A fresh streaming client id: the fixed prefix and a random UUID with
/// its hyphens removed.
pub fn fresh_client_id() -> (r: String)
    ensures
        r@.subrange(0, "IGCLIENT_"@.len() as int) == "IGCLIENT_"@,
{
    let raw = uuid_v4_string();
    let mut r = "IGCLIENT_".to_owned();
    let ghost prefix = r@;
    let n = raw.as_str().unicode_len();
    let mut i: usize = 0;
    proof {
        assert(raw@.subrange(0, n as int) =~= raw@);
    }
    while i < n
        invariant
            n == raw@.len(),
            i <= n,
            r@ == prefix + spec_remove_char(raw@.subrange(0, i as int), '-'),
        decreases n - i,
    {
        proof {
            assert(raw@.subrange(0, i as int + 1).drop_last() =~= raw@.subrange(0, i as int));
        }
        if raw.as_str().get_char(i) != '-' {
            r.append(raw.as_str().substring_char(i, i + 1));
            proof {
                lemma_remove_char_snoc(raw@.subrange(0, i as int + 1), '-');
                assert(raw@.subrange(i as int, i as int + 1) =~= seq![raw@[i as int]]);
            }
        } else {
            proof {
                lemma_remove_char_snoc(raw@.subrange(0, i as int + 1), '-');
            }
        }
        i += 1;
    }
    proof {
        assert(r@.subrange(0, "IGCLIENT_"@.len() as int) =~= "IGCLIENT_"@);
    }
    r
}

/// Removing a character distributes over appending one element.
proof fn lemma_remove_char_snoc(s: Seq<char>, c: char)
    requires
        s.len() > 0,
    ensures
        s.last() == c ==> spec_remove_char(s, c) == spec_remove_char(s.drop_last(), c),
        s.last() != c ==> spec_remove_char(s, c) == spec_remove_char(s.drop_last(), c) + seq![
            s.last(),
        ],
    decreases s.len(),
{
    if s.len() == 1 {
        assert(s.drop_last() =~= Seq::<char>::empty());
        assert(s.drop_first() =~= Seq::<char>::empty());
        if s[0] != c {
            assert(spec_remove_char(s.drop_first(), c) =~= Seq::<char>::empty());
            assert(spec_remove_char(s, c) == seq![s[0]] + spec_remove_char(s.drop_first(), c));
            assert(seq![s[0]] + spec_remove_char(s.drop_first(), c) =~= seq![s.last()]);
            assert(spec_remove_char(s.drop_last(), c) =~= Seq::<char>::empty());
            assert(spec_remove_char(s.drop_last(), c) + seq![s.last()] =~= seq![s.last()]);
        }
    } else {
        lemma_remove_char_snoc(s.drop_first(), c);
        assert(s.drop_first().last() == s.last());
        assert(s.drop_first().drop_last() =~= s.drop_last().drop_first());
        assert(s.drop_last()[0] == s[0]);
        assert(s.drop_last().len() > 0);
        if s[0] == c {
        } else {
            if s.last() == c {
            } else {
                assert(seq![s[0]] + (spec_remove_char(s.drop_first().drop_last(), c) + seq![
                    s.last(),
                ]) =~= (seq![s[0]] + spec_remove_char(s.drop_last().drop_first(), c)) + seq![
                    s.last(),
                ]);
            }
        }
    }
}

} // verus!
