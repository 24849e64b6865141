//! The cross-origin (CORS) policy of the JSON-RPC server.
use vstd::prelude::*;
use vstd::string::StrSliceExecFns;
use vstd::string::StringExecFns;

use crate::error::ServerError;
use crate::routing::{opt_view, HttpMethod};

verus! {

/// Name of the header that carries the client application's name.
pub const APP_NAME_HEADER: &'static str = "app-name";

/// Name of the header that carries the kind of client SDK.
pub const CLIENT_SDK_TYPE_HEADER: &'static str = "client-sdk-type";

/// Name of the header that carries the version of the client SDK.
pub const CLIENT_SDK_VERSION_HEADER: &'static str = "client-sdk-version";

/// Name of the header that carries the API version the client targets.
pub const CLIENT_TARGET_API_VERSION_HEADER: &'static str = "client-target-api-version";

/// Name of the standard content-type header.
pub const CONTENT_TYPE_HEADER: &'static str = "content-type";

#[verifier::external_type_specification]
#[verifier::external_body]
pub struct ExHeaderValue(hyper::header::HeaderValue);

#[verifier::external_type_specification]
#[verifier::external_body]
pub struct ExInvalidHeaderValue(hyper::header::InvalidHeaderValue);

/// A character that may stand in an HTTP header value: a tab, or any
/// character from the space up that is not DEL. (Non-ASCII characters are
/// encoded as bytes from 0x80 up, which are all allowed.)
pub open spec fn is_header_value_char(c: char) -> bool {
    c == '\t' || (c as u32 >= 32 && c as u32 != 127)
}

/// A string that is a valid HTTP header value.
pub open spec fn is_header_value(s: Seq<char>) -> bool {
    forall|i: int| 0 <= i < s.len() ==> is_header_value_char(#[trigger] s[i])
}

/// `HeaderValue::from_str`: succeeds exactly when every byte of `s` is a tab
/// or a byte from 32 up other than 127, which on characters is
/// `is_header_value`.
#[verifier::external_body]
fn parse_header_value(s: &str) -> (r: Result<hyper::header::HeaderValue, hyper::header::InvalidHeaderValue>)
    ensures
        r is Ok <==> is_header_value(s@),
{
    hyper::header::HeaderValue::from_str(s)
}

/// The pieces of `s` between commas, as `str::split(',')` yields them: one
/// piece more than there are commas, empty pieces included.
pub open spec fn split_commas(s: Seq<char>) -> Seq<Seq<char>>
    decreases s.len(),
{
    if s.len() == 0 {
        seq![Seq::<char>::empty()]
    } else {
        let init = split_commas(s.drop_last());
        if s.last() == ',' {
            init.push(Seq::<char>::empty())
        } else {
            init.update(init.len() - 1, init.last().push(s.last()))
        }
    }
}

/// The pieces joined back together, with a comma between each two.
pub open spec fn join_commas(parts: Seq<Seq<char>>) -> Seq<char>
    decreases parts.len(),
{
    if parts.len() <= 1 {
        if parts.len() == 1 { parts[0] } else { Seq::<char>::empty() }
    } else {
        join_commas(parts.drop_last()) + seq![','] + parts.last()
    }
}

proof fn lemma_split_nonempty(s: Seq<char>)
    ensures
        split_commas(s).len() >= 1,
    decreases s.len(),
{
    if s.len() > 0 {
        lemma_split_nonempty(s.drop_last());
    }
}

/// Splitting at the commas and joining the pieces with commas gives the
/// string back, and no piece holds a comma.
pub proof fn lemma_split_join(s: Seq<char>)
    ensures
        join_commas(split_commas(s)) == s,
        forall|k: int, j: int|
            0 <= k < split_commas(s).len() && 0 <= j < split_commas(s)[k].len()
                ==> #[trigger] split_commas(s)[k][j] != ',',
    decreases s.len(),
{
    if s.len() > 0 {
        let p = s.drop_last();
        lemma_split_join(p);
        lemma_split_nonempty(p);
        let init = split_commas(p);
        let parts = split_commas(s);
        if s.last() == ',' {
            assert(parts.drop_last() =~= init);
            assert(join_commas(parts) =~= s);
        } else {
            let n = init.len();
            if n == 1 {
                assert(parts.len() == 1);
                assert(join_commas(parts) =~= s);
            } else {
                assert(parts.drop_last() =~= init.drop_last());
                assert(join_commas(init) == join_commas(init.drop_last()) + seq![','] + init.last());
                assert(parts.last() == init.last().push(s.last()));
                assert(s =~= p.push(s.last()));
                assert(join_commas(parts) == join_commas(parts.drop_last()) + seq![','] + parts.last());
                assert(join_commas(parts) =~= s);
            }
            assert forall|k: int, j: int|
                0 <= k < parts.len() && 0 <= j < parts[k].len() implies #[trigger] parts[k][j]
                != ',' by {
                if k == n - 1 && j == parts[k].len() - 1 {
                } else {
                    assert(parts[k][j] == init[k][j]);
                }
            }
        }
    }
}

/// Every piece between the commas is a valid header value exactly when the
/// whole string is (a comma itself is allowed in a header value).
pub proof fn lemma_split_valid(s: Seq<char>)
    ensures
        (forall|k: int| 0 <= k < split_commas(s).len() ==> is_header_value(#[trigger] split_commas(s)[k]))
            <==> is_header_value(s),
    decreases s.len(),
{
    if s.len() > 0 {
        let p = s.drop_last();
        lemma_split_valid(p);
        lemma_split_nonempty(p);
        let init = split_commas(p);
        let parts = split_commas(s);
        let n = init.len();
        assert(is_header_value(s) <==> is_header_value(p) && is_header_value_char(s.last())) by {
            if is_header_value(p) && is_header_value_char(s.last()) {
                assert forall|i: int| 0 <= i < s.len() implies is_header_value_char(#[trigger] s[i]) by {
                    if i < s.len() - 1 {
                        assert(s[i] == p[i]);
                    }
                }
            }
            if is_header_value(s) {
                assert forall|i: int| 0 <= i < p.len() implies is_header_value_char(#[trigger] p[i]) by {
                    assert(s[i] == p[i]);
                }
                assert(is_header_value_char(s[s.len() - 1]));
            }
        }
        if s.last() == ',' {
            if forall|k: int| 0 <= k < init.len() ==> is_header_value(#[trigger] init[k]) {
                assert forall|k: int| 0 <= k < parts.len() implies is_header_value(#[trigger] parts[k]) by {
                    if k < n {
                        assert(parts[k] == init[k]);
                    }
                }
            }
            if forall|k: int| 0 <= k < parts.len() ==> is_header_value(#[trigger] parts[k]) {
                assert forall|k: int| 0 <= k < init.len() implies is_header_value(#[trigger] init[k]) by {
                    assert(parts[k] == init[k]);
                }
            }
        } else {
            let last = init[n - 1];
            assert(parts[n - 1] == last.push(s.last()));
            assert(is_header_value(last.push(s.last())) <==> is_header_value(last) && is_header_value_char(s.last())) by {
                let q = last.push(s.last());
                if is_header_value(last) && is_header_value_char(s.last()) {
                    assert forall|i: int| 0 <= i < q.len() implies is_header_value_char(#[trigger] q[i]) by {
                        if i < last.len() {
                            assert(q[i] == last[i]);
                        }
                    }
                }
                if is_header_value(q) {
                    assert forall|i: int| 0 <= i < last.len() implies is_header_value_char(#[trigger] last[i]) by {
                        assert(q[i] == last[i]);
                    }
                    assert(is_header_value_char(q[q.len() - 1]));
                }
            }
            if (forall|k: int| 0 <= k < init.len() ==> is_header_value(#[trigger] init[k])) && is_header_value_char(s.last()) {
                assert forall|k: int| 0 <= k < parts.len() implies is_header_value(#[trigger] parts[k]) by {
                    if k < n - 1 {
                        assert(parts[k] == init[k]);
                    }
                }
            }
            if forall|k: int| 0 <= k < parts.len() ==> is_header_value(#[trigger] parts[k]) {
                assert(is_header_value(parts[n - 1]));
                assert forall|k: int| 0 <= k < init.len() implies is_header_value(#[trigger] init[k]) by {
                    if k < n - 1 {
                        assert(parts[k] == init[k]);
                    }
                }
            }
        }
    }
}

/// The pieces of `s` between commas, as owned strings.
fn split_at_commas(s: &str) -> (parts: Vec<String>)
    ensures
        parts@.map_values(|p: String| p@) == split_commas(s@),
{
    let n = s.unicode_len();
    let mut parts: Vec<String> = Vec::new();
    let mut start: usize = 0;
    let mut i: usize = 0;
    proof {
        assert(s@.subrange(0, 0) =~= Seq::<char>::empty());
        assert(parts@.map_values(|p: String| p@).push(s@.subrange(0, 0)) =~= split_commas(
            s@.subrange(0, 0),
        ));
    }
    while i < n
        invariant
            n == s@.len(),
            start <= i <= n,
            parts@.map_values(|p: String| p@).push(s@.subrange(start as int, i as int))
                == split_commas(s@.subrange(0, i as int)),
        decreases n - i,
    {
        let c = s.get_char(i);
        let ghost before = parts@.map_values(|p: String| p@);
        proof {
            assert(s@.subrange(0, i + 1).drop_last() =~= s@.subrange(0, i as int));
            assert(s@.subrange(0, i + 1).last() == c);
        }
        if c == ',' {
            let piece = String::from_str(s.substring_char(start, i));
            parts.push(piece);
            proof {
                assert(parts@.map_values(|p: String| p@) =~= before.push(
                    s@.subrange(start as int, i as int),
                ));
                assert(s@.subrange(i + 1, i + 1) =~= Seq::<char>::empty());
            }
            start = i + 1;
        } else {
            proof {
                assert(s@.subrange(start as int, i + 1) =~= s@.subrange(start as int, i as int).push(c));
                let init = split_commas(s@.subrange(0, i as int));
                assert(before.push(s@.subrange(start as int, i + 1)) =~= init.update(
                    init.len() - 1,
                    init.last().push(c),
                ));
            }
        }
        i = i + 1;
    }
    let ghost before = parts@.map_values(|p: String| p@);
    let last = String::from_str(s.substring_char(start, n));
    parts.push(last);
    proof {
        assert(s@.subrange(0, n as int) =~= s@);
        assert(parts@.map_values(|p: String| p@) =~= before.push(s@.subrange(start as int, n as int)));
    }
    parts
}

/// Which origins may make cross-origin requests.
#[derive(Debug, Clone, PartialEq, Eq)]
pub enum AllowedOrigins {
    /// Any origin.
    Any,
    /// Only the listed origins.
    List(Vec<String>),
}

/// `origins` is what the allowed-origin setting `value` gives when it parses:
/// any origin when unset, else the comma-separated pieces of the value.
pub open spec fn origins_match(origins: AllowedOrigins, value: Option<Seq<char>>) -> bool {
    match value {
        None => origins is Any,
        Some(v) => match origins {
            AllowedOrigins::List(l) => l@.map_values(|p: String| p@) == split_commas(v),
            AllowedOrigins::Any => false,
        },
    }
}

/// The allowed-origin setting parses: it is unset, or a valid header value.
pub open spec fn origins_parse(value: Option<Seq<char>>) -> bool {
    match value {
        None => true,
        Some(v) => is_header_value(v),
    }
}

/// The origins that the allowed-origin setting admits: any origin when it is
/// unset, else the comma-separated list it holds, each of which must be a
/// valid header value.
pub fn allowed_origins(value: &Option<String>) -> (r: Result<AllowedOrigins, ServerError>)
    ensures
        r is Ok <==> origins_parse(opt_view(*value)),
        r matches Ok(o) ==> origins_match(o, opt_view(*value)),
        r matches Ok(o) ==> (o is Any <==> *value is None),
        r matches Ok(AllowedOrigins::List(l)) ==> opt_view(*value) == Some(
            join_commas(l@.map_values(|p: String| p@)),
        ),
        r matches Ok(AllowedOrigins::List(l)) ==> forall|k: int, j: int|
            0 <= k < l@.len() && 0 <= j < l@[k]@.len() ==> #[trigger] l@[k]@[j] != ',',
        r matches Err(e) ==> e == ServerError::InvalidHeaderValue,
{
    match value {
        None => Ok(AllowedOrigins::Any),
        Some(v) => {
            let parts = split_at_commas(v.as_str());
            let ghost views = parts@.map_values(|p: String| p@);
            let mut k: usize = 0;
            while k < parts.len()
                invariant
                    k <= parts.len(),
                    views == parts@.map_values(|p: String| p@),
                    views == split_commas(v@),
                    opt_view(*value) == Some(v@),
                    forall|j: int| 0 <= j < k ==> is_header_value(#[trigger] views[j]),
                decreases parts.len() - k,
            {
                match parse_header_value(parts[k].as_str()) {
                    Ok(_) => {},
                    Err(_) => {
                        proof {
                            lemma_split_valid(v@);
                            assert(views == split_commas(v@));
                            assert(!is_header_value(split_commas(v@)[k as int]));
                        }
                        return Err(ServerError::InvalidHeaderValue);
                    },
                }
                k = k + 1;
            }
            proof {
                lemma_split_valid(v@);
                lemma_split_join(v@);
                assert forall|k: int, j: int|
                    0 <= k < parts@.len() && 0 <= j < parts@[k]@.len() implies #[trigger] parts@[k]@[j]
                    != ',' by {
                    assert(parts@[k]@ == views[k]);
                    assert(split_commas(v@)[k][j] != ',');
                }
            }
            Ok(AllowedOrigins::List(parts))
        },
    }
}

/// The CORS policy of the server.
#[derive(Debug, Clone)]
pub struct CorsConfig {
    pub allow_methods: Vec<HttpMethod>,
    pub allow_origin: AllowedOrigins,
    pub allow_headers: Vec<String>,
}

/// The request headers that the policy allows, in order.
pub open spec fn allowed_header_names() -> Seq<Seq<char>> {
    seq![
        "content-type"@,
        "client-sdk-type"@,
        "client-sdk-version"@,
        "client-target-api-version"@,
        "app-name"@,
    ]
}

/// `cors` is the policy for the allowed-origin setting `value`: only `POST`,
/// the origins the setting gives, and the fixed list of request headers.
pub open spec fn cors_match(cors: CorsConfig, value: Option<Seq<char>>) -> bool {
    &&& cors.allow_methods@ == seq![HttpMethod::Post]
    &&& origins_match(cors.allow_origin, value)
    &&& cors.allow_headers@.map_values(|h: String| h@) == allowed_header_names()
}

/// The policy allows only `POST` and the same five request headers whatever
/// the allowed-origin setting is.
pub proof fn lemma_headers_do_not_depend_on_origins(c: CorsConfig, value: Option<Seq<char>>)
    requires
        cors_match(c, value),
    ensures
        c.allow_methods@ == seq![HttpMethod::Post],
        c.allow_headers@.map_values(|h: String| h@) == seq![
            "content-type"@,
            "client-sdk-type"@,
            "client-sdk-version"@,
            "client-target-api-version"@,
            "app-name"@,
        ],
{
}

/// Every piece of a set allowed-origin setting becomes an allowed origin:
/// the listed origins, joined with commas, give the setting back, and none
/// of them holds a comma.
pub proof fn lemma_listed_origins_rejoin(o: AllowedOrigins, v: Seq<char>)
    requires
        origins_match(o, Some(v)),
    ensures
        o matches AllowedOrigins::List(l) && join_commas(l@.map_values(|p: String| p@)) == v,
        o matches AllowedOrigins::List(l) && forall|k: int, j: int|
            0 <= k < l@.len() && 0 <= j < l@[k]@.len() ==> #[trigger] l@[k]@[j] != ',',
{
    lemma_split_join(v);
    if let AllowedOrigins::List(l) = o {
        assert forall|k: int, j: int| 0 <= k < l@.len() && 0 <= j < l@[k]@.len() implies #[trigger] l@[k]@[j]
            != ',' by {
            assert(l@.map_values(|p: String| p@)[k] == l@[k]@);
            assert(split_commas(v)[k][j] != ',');
        }
    }
}

/// The CORS policy for the given allowed-origin setting.
pub fn cors_config(value: &Option<String>) -> (r: Result<CorsConfig, ServerError>)
    ensures
        r is Ok <==> origins_parse(opt_view(*value)),
        r matches Ok(c) ==> cors_match(c, opt_view(*value)),
        r matches Ok(c) ==> c.allow_methods@ == seq![HttpMethod::Post],
        r matches Ok(c) ==> c.allow_headers@.map_values(|h: String| h@) == seq![
            "content-type"@,
            "client-sdk-type"@,
            "client-sdk-version"@,
            "client-target-api-version"@,
            "app-name"@,
        ],
        r matches Err(e) ==> e == ServerError::InvalidHeaderValue,
{
    let allow_origin = allowed_origins(value)?;
    let mut allow_methods: Vec<HttpMethod> = Vec::new();
    allow_methods.push(HttpMethod::Post);
    let mut allow_headers: Vec<String> = Vec::new();
    allow_headers.push(String::from_str(CONTENT_TYPE_HEADER));
    allow_headers.push(String::from_str(CLIENT_SDK_TYPE_HEADER));
    allow_headers.push(String::from_str(CLIENT_SDK_VERSION_HEADER));
    allow_headers.push(String::from_str(CLIENT_TARGET_API_VERSION_HEADER));
    allow_headers.push(String::from_str(APP_NAME_HEADER));
    proof {
        assert(allow_methods@ =~= seq![HttpMethod::Post]);
        assert(allow_headers@.map_values(|h: String| h@) =~= allowed_header_names());
    }
    Ok(CorsConfig { allow_methods, allow_origin, allow_headers })
}

} // verus!
