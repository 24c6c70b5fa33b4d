//! Signed uploads to the image host: the parameters of an upload, their
//! signature, the request to send and the reading of the answer.

use vstd::prelude::*;
use vstd::string::*;

use crate::codec::{base64_decode, base64_decoded, sha1_digest, sha1_of};
use crate::primitives::clock_seconds;
use crate::text::{
    chars_of, decimal, decimal_string, has_prefix, hex_lower, lemma_lex_asymmetric,
    lemma_lex_irreflexive, lemma_lex_total, lemma_lex_transitive, lex_before, precedes,
    push_chars, starts_with, str_eq, to_hex_lower,
};

verus! {

/// The account at the image host.
#[derive(Clone, Debug, PartialEq, Eq)]
pub struct CloudinaryConfig {
    pub cloud_name: String,
    pub api_key: String,
    pub api_secret: String,
}

impl CloudinaryConfig {
    /// The account described by the three settings, each as it was found in
    /// the environment. The first one that is missing is reported by name.
    pub fn from_env(
        cloud_name: Option<String>,
        api_key: Option<String>,
        api_secret: Option<String>,
    ) -> (r: Result<CloudinaryConfig, String>)
        ensures
            match (cloud_name, api_key, api_secret) {
                (Some(n), Some(k), Some(s)) => r == Ok::<CloudinaryConfig, String>(
                    CloudinaryConfig { cloud_name: n, api_key: k, api_secret: s },
                ),
                (None, _, _) => r matches Err(e) && e@ == "CLOUDINARY_CLOUD_NAME not set"@,
                (Some(_), None, _) => r matches Err(e) && e@ == "CLOUDINARY_API_KEY not set"@,
                (Some(_), Some(_), None) => r matches Err(e) && e@
                    == "CLOUDINARY_API_SECRET not set"@,
            },
    {
        let cloud_name = match cloud_name {
            Some(n) => n,
            None => {
                return Err(String::from_str("CLOUDINARY_CLOUD_NAME not set"));
            },
        };
        let api_key = match api_key {
            Some(k) => k,
            None => {
                return Err(String::from_str("CLOUDINARY_API_KEY not set"));
            },
        };
        let api_secret = match api_secret {
            Some(s) => s,
            None => {
                return Err(String::from_str("CLOUDINARY_API_SECRET not set"));
            },
        };
        Ok(CloudinaryConfig { cloud_name, api_key, api_secret })
    }
}

/// The parameters of a request as pairs of name and value.
pub type Params = Seq<(Seq<char>, Seq<char>)>;

/// Whether the names of `params` stand in strictly rising dictionary order,
/// so that no name occurs twice.
pub open spec fn sorted(params: Params) -> bool {
    forall|i: int, j: int| 0 <= i < j < params.len() ==> lex_before(params[i].0, params[j].0)
}

/// `params` with `value` under `name`: in place of the value that `name`
/// had, or else at the place that keeps the names in order.
pub open spec fn inserted(params: Params, name: Seq<char>, value: Seq<char>) -> Params
    decreases params.len(),
{
    if params.len() == 0 {
        seq![(name, value)]
    } else if params.last().0 == name {
        params.drop_last().push((name, value))
    } else if lex_before(params.last().0, name) {
        params.push((name, value))
    } else {
        inserted(params.drop_last(), name, value).push(params.last())
    }
}

/// Inserting into parameters in order leaves them in order.
pub proof fn lemma_inserted_sorted(params: Params, name: Seq<char>, value: Seq<char>)
    requires
        sorted(params),
    ensures
        sorted(inserted(params, name, value)),
        forall|i: int|
            0 <= i < inserted(params, name, value).len() ==> #[trigger] inserted(
                params,
                name,
                value,
            )[i].0 == name || exists|j: int|
                0 <= j < params.len() && params[j] == inserted(params, name, value)[i],
    decreases params.len(),
{
    let out = inserted(params, name, value);
    if params.len() == 0 {
    } else if params.last().0 == name {
        assert forall|i: int| 0 <= i < out.len() implies #[trigger] out[i].0 == name || exists|
            j: int,
        |
            0 <= j < params.len() && params[j] == out[i] by {
            if i < out.len() - 1 {
                assert(params[i] == out[i]);
            }
        }
    } else if lex_before(params.last().0, name) {
        assert forall|i: int, j: int| 0 <= i < j < out.len() implies lex_before(
            out[i].0,
            out[j].0,
        ) by {
            if j == out.len() - 1 && i < params.len() - 1 {
                lemma_lex_transitive(params[i].0, params.last().0, name);
            }
        }
        assert forall|i: int| 0 <= i < out.len() implies #[trigger] out[i].0 == name || exists|
            j: int,
        |
            0 <= j < params.len() && params[j] == out[i] by {
            if i < out.len() - 1 {
                assert(params[i] == out[i]);
            }
        }
    } else {
        let init = params.drop_last();
        let mid = inserted(init, name, value);
        assert(sorted(init));
        lemma_inserted_sorted(init, name, value);
        lemma_lex_total(params.last().0, name);
        assert(lex_before(name, params.last().0));
        assert forall|i: int, j: int| 0 <= i < j < out.len() implies lex_before(
            out[i].0,
            out[j].0,
        ) by {
            if j == out.len() - 1 {
                assert(out[i] == mid[i]);
                if mid[i].0 == name {
                } else {
                    let k = choose|k: int| 0 <= k < init.len() && init[k] == mid[i];
                    assert(params[k] == init[k]);
                }
            } else {
                assert(out[i] == mid[i] && out[j] == mid[j]);
            }
        }
        assert forall|i: int| 0 <= i < out.len() implies #[trigger] out[i].0 == name || exists|
            j: int,
        |
            0 <= j < params.len() && params[j] == out[i] by {
            if i < out.len() - 1 {
                assert(out[i] == mid[i]);
                if mid[i].0 != name {
                    let k = choose|k: int| 0 <= k < init.len() && init[k] == mid[i];
                    assert(params[k] == out[i]);
                }
            } else {
                assert(params[params.len() - 1] == out[i]);
            }
        }
    }
}

/// The last of the items once one is added is that one, and the items before
/// it are those that were there.
proof fn lemma_pushed(params: Params, item: (Seq<char>, Seq<char>))
    ensures
        params.push(item).len() > 0,
        params.push(item).last() == item,
        params.push(item).drop_last() == params,
{
    assert(params.push(item).drop_last() =~= params);
}

/// Inserting under a name and then under one that comes after it gives what
/// inserting in the other order gives.
proof fn lemma_inserts_commute_in_order(
    params: Params,
    a: Seq<char>,
    x: Seq<char>,
    b: Seq<char>,
    y: Seq<char>,
)
    requires
        lex_before(a, b),
    ensures
        inserted(inserted(params, a, x), b, y) == inserted(inserted(params, b, y), a, x),
    decreases params.len(),
{
    lemma_lex_asymmetric(a, b);
    let with_a = inserted(params, a, x);
    let with_b = inserted(params, b, y);
    if params.len() == 0 {
        lemma_pushed(params, (a, x));
        lemma_pushed(params, (b, y));
        assert(with_a =~= params.push((a, x)));
        assert(with_b =~= params.push((b, y)));
        assert(inserted(with_a, b, y) == with_a.push((b, y)));
        assert(inserted(with_b, a, x) == inserted(params, a, x).push((b, y)));
    } else {
        let init = params.drop_last();
        let last = params.last();
        let name = last.0;
        if name == b {
            lemma_pushed(init, (b, y));
            lemma_pushed(inserted(init, a, x), last);
            assert(with_b == init.push((b, y)));
            assert(with_a == inserted(init, a, x).push(last));
            assert(inserted(with_a, b, y) == inserted(init, a, x).push((b, y)));
            assert(inserted(with_b, a, x) == inserted(init, a, x).push((b, y)));
        } else if name == a {
            lemma_pushed(init, (a, x));
            lemma_pushed(params, (b, y));
            assert(with_a == init.push((a, x)));
            assert(with_b == params.push((b, y)));
            assert(inserted(with_a, b, y) == with_a.push((b, y)));
            assert(inserted(with_b, a, x) == with_a.push((b, y)));
        } else if lex_before(name, a) {
            lemma_lex_transitive(name, a, b);
            lemma_lex_asymmetric(name, b);
            lemma_pushed(params, (a, x));
            lemma_pushed(params, (b, y));
            assert(with_a == params.push((a, x)));
            assert(with_b == params.push((b, y)));
            assert(inserted(with_a, b, y) == with_a.push((b, y)));
            assert(inserted(with_b, a, x) == with_a.push((b, y)));
        } else if lex_before(name, b) {
            lemma_pushed(inserted(init, a, x), last);
            lemma_pushed(params, (b, y));
            assert(with_a == inserted(init, a, x).push(last));
            assert(with_b == params.push((b, y)));
            assert(inserted(with_a, b, y) == with_a.push((b, y)));
            assert(inserted(with_b, a, x) == with_a.push((b, y)));
        } else {
            lemma_pushed(inserted(init, a, x), last);
            lemma_pushed(inserted(init, b, y), last);
            lemma_inserts_commute_in_order(init, a, x, b, y);
            assert(with_a == inserted(init, a, x).push(last));
            assert(with_b == inserted(init, b, y).push(last));
            assert(inserted(with_a, b, y) == inserted(inserted(init, a, x), b, y).push(last));
            assert(inserted(with_b, a, x) == inserted(inserted(init, b, y), a, x).push(last));
        }
    }
}

/// The order in which values are put under two different names does not
/// matter: either order gives the same parameters.
pub proof fn inserts_commute(
    params: Params,
    a: Seq<char>,
    x: Seq<char>,
    b: Seq<char>,
    y: Seq<char>,
)
    requires
        a != b,
    ensures
        inserted(inserted(params, a, x), b, y) == inserted(inserted(params, b, y), a, x),
{
    lemma_lex_total(a, b);
    if lex_before(a, b) {
        lemma_inserts_commute_in_order(params, a, x, b, y);
    } else {
        lemma_inserts_commute_in_order(params, b, y, a, x);
    }
}

/// The parameters of a request, kept in the dictionary order of their names,
/// each name once.
#[derive(Debug, PartialEq, Eq)]
pub struct SignedParams {
    entries: Vec<(String, String)>,
}

impl View for SignedParams {
    type V = Params;

    closed spec fn view(&self) -> Params {
        self.entries@.map_values(|e: (String, String)| (e.0@, e.1@))
    }
}

impl SignedParams {
    #[verifier::type_invariant]
    spec fn in_order(&self) -> bool {
        sorted(self@)
    }

    /// No parameters.
    pub fn new() -> (p: SignedParams)
        ensures
            p@ == Seq::<(Seq<char>, Seq<char>)>::empty(),
    {
        let entries: Vec<(String, String)> = Vec::new();
        assert(entries@.map_values(|e: (String, String)| (e.0@, e.1@)) =~= Seq::<
            (Seq<char>, Seq<char>),
        >::empty());
        SignedParams { entries }
    }

    /// Puts `value` under `name`, in place of the value `name` had, if any.
    pub fn insert(&mut self, name: &str, value: &str)
        ensures
            final(self)@ == inserted(old(self)@, name@, value@),
            sorted(final(self)@),
    {
        proof {
            use_type_invariant(&*self);
        }
        let key = chars_of(name);
        let ghost before = self@;
        let mut at: usize = self.entries.len();
        let mut found: bool = false;
        while at > 0 && !found
            invariant
                at <= self.entries.len(),
                self@ == before,
                key@ == name@,
                forall|j: int|
                    at <= j < before.len() ==> before[j].0 != name@ && !lex_before(
                        before[j].0,
                        name@,
                    ),
                found ==> at > 0 && (before[at - 1].0 == name@ || lex_before(
                    before[at - 1].0,
                    name@,
                )),
            decreases at + (if found { 0int } else { 1int }),
        {
            let last = chars_of(self.entries[at - 1].0.as_str());
            assert(before[at - 1].0 == self.entries@[at - 1].0@);
            if str_eq(self.entries[at - 1].0.as_str(), name) || precedes(&last, &key) {
                found = true;
            } else {
                at = at - 1;
            }
        }
        proof {
            lemma_inserted_at(before, name@, value@, at as int);
            lemma_inserted_sorted(before, name@, value@);
        }
        let replace = at > 0 && str_eq(self.entries[at - 1].0.as_str(), name);
        assert(at > 0 ==> before[at - 1].0 == self.entries@[at - 1].0@);
        let mut entries: Vec<(String, String)> = Vec::new();
        let mut i: usize = 0;
        let keep: usize = if replace { at - 1 } else { at };
        while i < keep
            invariant
                i <= keep <= at <= self.entries.len(),
                self@ == before,
                entries@.map_values(|e: (String, String)| (e.0@, e.1@)) == before.take(i as int),
            decreases keep - i,
        {
            let ghost so_far = entries@.map_values(|e: (String, String)| (e.0@, e.1@));
            entries.push((self.entries[i].0.clone(), self.entries[i].1.clone()));
            assert(entries@.map_values(|e: (String, String)| (e.0@, e.1@)) =~= so_far.push(
                before[i as int],
            ));
            assert(before.take(i + 1) =~= before.take(i as int).push(before[i as int]));
            i = i + 1;
        }
        let ghost head = entries@.map_values(|e: (String, String)| (e.0@, e.1@));
        entries.push((String::from_str(name), String::from_str(value)));
        assert(entries@.map_values(|e: (String, String)| (e.0@, e.1@)) =~= head.push(
            (name@, value@),
        ));
        let mut j: usize = at;
        while j < self.entries.len()
            invariant
                at <= j <= self.entries.len(),
                self@ == before,
                entries@.map_values(|e: (String, String)| (e.0@, e.1@)) == head.push(
                    (name@, value@),
                ) + before.subrange(at as int, j as int),
            decreases self.entries.len() - j,
        {
            let ghost so_far = entries@.map_values(|e: (String, String)| (e.0@, e.1@));
            entries.push((self.entries[j].0.clone(), self.entries[j].1.clone()));
            assert(entries@.map_values(|e: (String, String)| (e.0@, e.1@)) =~= so_far.push(
                before[j as int],
            ));
            assert(before.subrange(at as int, j + 1) =~= before.subrange(at as int, j as int).push(
                before[j as int],
            ));
            j = j + 1;
        }
        proof {
            let after = entries@.map_values(|e: (String, String)| (e.0@, e.1@));
            assert(before.subrange(at as int, before.len() as int) =~= before.skip(at as int));
            if replace {
                assert(after =~= before.update(at - 1, (name@, value@)));
            } else {
                assert(after =~= before.take(at as int).push((name@, value@)) + before.skip(
                    at as int,
                ));
            }
            assert(after == inserted(before, name@, value@));
        }
        self.entries = entries;
    }
}

/// Where the names of `params` from `at` on neither are `name` nor come
/// before it, and the one before `at`, if any, is `name` or comes before it,
/// inserting puts the value in place of that one or right at `at`.
proof fn lemma_inserted_at(params: Params, name: Seq<char>, value: Seq<char>, at: int)
    requires
        0 <= at <= params.len(),
        forall|j: int|
            at <= j < params.len() ==> params[j].0 != name && !lex_before(params[j].0, name),
        at > 0 ==> params[at - 1].0 == name || lex_before(params[at - 1].0, name),
    ensures
        inserted(params, name, value) == if at > 0 && params[at - 1].0 == name {
            params.update(at - 1, (name, value))
        } else {
            params.take(at).push((name, value)) + params.skip(at)
        },
    decreases params.len() - at,
{
    if at == params.len() {
        if at == 0 {
            assert(params.take(at).push((name, value)) + params.skip(at) =~= seq![(name, value)]);
        } else if params[at - 1].0 == name {
            assert(params.drop_last().push((name, value)) =~= params.update(
                at - 1,
                (name, value),
            ));
        } else {
            assert(params.take(at).push((name, value)) + params.skip(at) =~= params.push(
                (name, value),
            ));
        }
    } else {
        let init = params.drop_last();
        lemma_inserted_at(init, name, value, at);
        if at > 0 && params[at - 1].0 == name {
            assert(init.update(at - 1, (name, value)).push(params.last()) =~= params.update(
                at - 1,
                (name, value),
            ));
        } else {
            assert((init.take(at).push((name, value)) + init.skip(at)).push(params.last())
                =~= params.take(at).push((name, value)) + params.skip(at));
        }
    }
}

/// Whether a parameter takes no part in the signature: the key of the
/// account and the signature itself.
pub open spec fn unsigned(name: Seq<char>) -> bool {
    name == "api_key"@ || name == "signature"@
}

/// The text that is signed: the parameters that take part, in their order,
/// each as `name=value`, joined by `&`.
pub open spec fn signing_text(params: Params) -> Seq<char>
    decreases params.len(),
{
    if params.len() == 0 {
        Seq::empty()
    } else {
        let init = signing_text(params.drop_last());
        let (name, value) = params.last();
        if unsigned(name) {
            init
        } else if init.len() == 0 {
            name + seq!['='] + value
        } else {
            init + seq!['&'] + name + seq!['='] + value
        }
    }
}

/// The signature of `params` under `secret`: the SHA-1 digest, in lower-case
/// hexadecimal, of the signing text followed by the secret.
pub open spec fn signature_of(params: Params, secret: Seq<char>) -> Seq<char> {
    hex_lower(sha1_digest(vstd::utf8::encode_utf8(signing_text(params) + secret)))
}

/// The first position at which `s` holds a comma, or the length of `s` where
/// it holds none.
pub open spec fn first_comma(s: Seq<char>) -> int
    decreases s.len(),
{
    if s.len() == 0 {
        0
    } else if s[0] == ',' {
        0
    } else {
        1 + first_comma(s.drop_first())
    }
}

/// The second of the stretches into which the commas cut `s`: what stands
/// between the first comma and the next. Nothing where there is no comma.
pub open spec fn second_field(s: Seq<char>) -> Option<Seq<char>> {
    if first_comma(s) == s.len() {
        None
    } else {
        let rest = s.skip(first_comma(s) + 1);
        Some(rest.take(first_comma(rest)))
    }
}

/// The Base64 text of an image handed over either bare or as a data URL: of
/// a data URL, what stands behind its first comma.
pub open spec fn image_payload(data: Seq<char>) -> Seq<char> {
    if has_prefix(data, "data:"@) {
        match second_field(data) {
            Some(field) => field,
            None => data,
        }
    } else {
        data
    }
}

/// The first position from `from` on at which `v` holds a comma, or the
/// length of `v` where it holds none.
fn next_comma(v: &Vec<char>, from: usize) -> (at: usize)
    requires
        from <= v.len(),
    ensures
        from <= at <= v.len(),
        forall|i: int| from <= i < at ==> v@[i] != ',',
        at < v.len() ==> v@[at as int] == ',',
{
    let mut i: usize = from;
    while i < v.len()
        invariant
            from <= i <= v.len(),
            forall|j: int| from <= j < i ==> v@[j] != ',',
        decreases v.len() - i,
    {
        if v[i] == ',' {
            return i;
        }
        i = i + 1;
    }
    i
}

/// Where `s` holds no comma before `at`, and one at `at` unless `at` is its
/// length, its first comma is at `at`.
proof fn lemma_first_comma(s: Seq<char>, at: int)
    requires
        0 <= at <= s.len(),
        forall|i: int| 0 <= i < at ==> s[i] != ',',
        at < s.len() ==> s[at] == ',',
    ensures
        first_comma(s) == at,
    decreases s.len(),
{
    if s.len() > 0 && at > 0 {
        let rest = s.drop_first();
        assert forall|i: int| 0 <= i < at - 1 implies rest[i] != ',' by {
            assert(rest[i] == s[i + 1]);
        }
        lemma_first_comma(rest, at - 1);
    }
}

/// Strips the data URL wrapping from an image, if it has one.
pub fn strip_data_url(data: &str) -> (payload: String)
    ensures
        payload@ == image_payload(data@),
{
    let v = chars_of(data);
    let mut out = String::new();
    if !starts_with(data, "data:") {
        push_chars(&mut out, &v, 0, v.len());
        assert(v@.subrange(0, v.len() as int) == v@);
        return out;
    }
    let first = next_comma(&v, 0);
    proof {
        lemma_first_comma(v@, first as int);
    }
    if first == v.len() {
        push_chars(&mut out, &v, 0, v.len());
        assert(v@.subrange(0, v.len() as int) == v@);
        return out;
    }
    let second = next_comma(&v, first + 1);
    let ghost rest = v@.skip(first + 1);
    push_chars(&mut out, &v, first + 1, second);
    proof {
        assert forall|i: int| 0 <= i < second - first - 1 implies rest[i] != ',' by {
            assert(rest[i] == v@[first + 1 + i]);
        }
        lemma_first_comma(rest, second - first - 1);
        assert(v@.subrange(first + 1, second as int) == rest.take(second - first - 1));
    }
    out
}

/// What is sent to the image host: the address, the file and the fields of
/// the form, in the order in which they are sent.
#[derive(Clone, Debug, PartialEq, Eq)]
pub struct UploadRequest {
    pub url: String,
    pub file: Vec<u8>,
    pub file_name: String,
    pub fields: Vec<(String, String)>,
}

/// Uploads images to the account it was made with.
#[derive(Clone, Debug, PartialEq, Eq)]
pub struct CloudinaryService {
    config: CloudinaryConfig,
}

/// The parameters that are signed for an upload at `timestamp` to
/// `public_id`.
pub open spec fn upload_params(timestamp: int, public_id: Option<String>) -> Params {
    let fixed = inserted(
        inserted(
            inserted(Seq::empty(), "timestamp"@, decimal(timestamp)),
            "folder"@,
            "profile_pictures"@,
        ),
        "transformation"@,
        "c_fill,w_300,h_300,f_auto,q_auto"@,
    );
    match public_id {
        Some(id) => inserted(fixed, "public_id"@, id@),
        None => fixed,
    }
}

/// The parameters that are signed for an upload stand in the dictionary
/// order of their names, whatever the time and the public identifier, and
/// so none of them occurs twice.
pub proof fn upload_params_are_sorted(timestamp: int, public_id: Option<String>)
    ensures
        sorted(upload_params(timestamp, public_id)),
        forall|i: int, j: int|
            0 <= i < j < upload_params(timestamp, public_id).len() ==> upload_params(
                timestamp,
                public_id,
            )[i].0 != upload_params(timestamp, public_id)[j].0,
{
    let none = Seq::<(Seq<char>, Seq<char>)>::empty();
    let one = inserted(none, "timestamp"@, decimal(timestamp));
    let two = inserted(one, "folder"@, "profile_pictures"@);
    let three = inserted(two, "transformation"@, "c_fill,w_300,h_300,f_auto,q_auto"@);
    lemma_inserted_sorted(none, "timestamp"@, decimal(timestamp));
    lemma_inserted_sorted(one, "folder"@, "profile_pictures"@);
    lemma_inserted_sorted(two, "transformation"@, "c_fill,w_300,h_300,f_auto,q_auto"@);
    if public_id is Some {
        lemma_inserted_sorted(three, "public_id"@, public_id->0@);
    }
    let all = upload_params(timestamp, public_id);
    assert forall|i: int, j: int| 0 <= i < j < all.len() implies all[i].0 != all[j].0 by {
        lemma_lex_irreflexive(all[i].0);
    }
}

/// The fields of the form for an upload, in the order in which they are
/// sent: time, key, signature, folder, transformation and, where one is
/// given, the public identifier.
pub open spec fn upload_fields(
    api_key: Seq<char>,
    secret: Seq<char>,
    timestamp: int,
    public_id: Option<String>,
) -> Params {
    let fixed = seq![
        ("timestamp"@, decimal(timestamp)),
        ("api_key"@, api_key),
        ("signature"@, signature_of(upload_params(timestamp, public_id), secret)),
        ("folder"@, "profile_pictures"@),
        ("transformation"@, "c_fill,w_300,h_300,f_auto,q_auto"@),
    ];
    match public_id {
        Some(id) => fixed.push(("public_id"@, id@)),
        None => fixed,
    }
}

impl CloudinaryService {
    /// A service for the account `config`.
    pub fn new(config: CloudinaryConfig) -> (s: CloudinaryService)
        ensures
            s.config() == config,
    {
        CloudinaryService { config }
    }

    /// The account the service uploads to.
    pub closed spec fn config(&self) -> CloudinaryConfig {
        self.config
    }

    /// The signature of `params` under the secret of the account: forty
    /// hexadecimal digits that depend on the parameters and the secret alone,
    /// not on the order in which the parameters were put in.
    pub fn generate_signature(&self, params: &SignedParams) -> (signature: String)
        ensures
            signature@ == signature_of(params@, self.config().api_secret@),
            signature@.len() == 40,
    {
        let mut to_sign = String::new();
        let mut i: usize = 0;
        assert(params@.take(0) == Seq::<(Seq<char>, Seq<char>)>::empty());
        while i < params.entries.len()
            invariant
                i <= params.entries.len(),
                to_sign@ == signing_text(params@.take(i as int)),
            decreases params.entries.len() - i,
        {
            let ghost head = params@.take(i + 1);
            assert(head.drop_last() == params@.take(i as int));
            assert(head.last() == params@[i as int]);
            let name = params.entries[i].0.as_str();
            let value = params.entries[i].1.as_str();
            if !(str_eq(name, "api_key") || str_eq(name, "signature")) {
                if to_sign.as_str().unicode_len() > 0 {
                    to_sign.push('&');
                }
                to_sign.append(name);
                to_sign.push('=');
                to_sign.append(value);
                assert(to_sign@ =~= signing_text(head));
            }
            i = i + 1;
        }
        assert(params@.take(params.entries.len() as int) == params@);
        to_sign.append(self.config.api_secret.as_str());
        let digest = sha1_of(to_sign.as_str().as_bytes());
        to_hex_lower(&digest)
    }

    /// Prepares the upload of an image at the time `timestamp`, in seconds
    /// since the Unix epoch. The image comes in Base64, bare or as a data
    /// URL; where it is no Base64 the upload is refused with a description.
    pub fn upload_image_at(
        &self,
        base64_data: &str,
        public_id: Option<String>,
        timestamp: i64,
    ) -> (r: Result<UploadRequest, String>)
        ensures
            match base64_decoded(image_payload(base64_data@)) {
                None => r matches Err(e) && has_prefix(e@, "Failed to decode base64: "@),
                Some(bytes) => r matches Ok(request) && {
                    &&& request.url@ == "https://api.cloudinary.com/v1_1/"@
                        + self.config().cloud_name@ + "/image/upload"@
                    &&& request.file@ == bytes
                    &&& request.file_name@ == "profile.jpg"@
                    &&& request.fields@.map_values(|f: (String, String)| (f.0@, f.1@))
                        == upload_fields(
                        self.config().api_key@,
                        self.config().api_secret@,
                        timestamp as int,
                        public_id,
                    )
                },
            },
    {
        let payload = strip_data_url(base64_data);
        let file = match base64_decode(payload.as_str()) {
            Ok(bytes) => bytes,
            Err(reason) => {
                let message = String::from_str("Failed to decode base64: ").concat(
                    reason.as_str(),
                );
                assert(message@.subrange(0, "Failed to decode base64: "@.len() as int)
                    == "Failed to decode base64: "@);
                return Err(message);
            },
        };
        let timestamp_text = decimal_string(timestamp);
        let mut params = SignedParams::new();
        params.insert("timestamp", timestamp_text.as_str());
        params.insert("folder", "profile_pictures");
        params.insert("transformation", "c_fill,w_300,h_300,f_auto,q_auto");
        match &public_id {
            Some(id) => {
                params.insert("public_id", id.as_str());
            },
            None => {},
        }
        let signature = self.generate_signature(&params);
        let mut fields: Vec<(String, String)> = Vec::new();
        fields.push((String::from_str("timestamp"), timestamp_text));
        fields.push((String::from_str("api_key"), self.config.api_key.clone()));
        fields.push((String::from_str("signature"), signature));
        fields.push((String::from_str("folder"), String::from_str("profile_pictures")));
        fields.push(
            (
                String::from_str("transformation"),
                String::from_str("c_fill,w_300,h_300,f_auto,q_auto"),
            ),
        );
        match public_id {
            Some(id) => {
                fields.push((String::from_str("public_id"), id));
            },
            None => {},
        }
        assert(fields@.map_values(|f: (String, String)| (f.0@, f.1@)) =~= upload_fields(
            self.config().api_key@,
            self.config().api_secret@,
            timestamp as int,
            public_id,
        ));
        let mut url = String::from_str("https://api.cloudinary.com/v1_1/");
        url.append(self.config.cloud_name.as_str());
        url.append("/image/upload");
        Ok(UploadRequest { url, file, file_name: String::from_str("profile.jpg"), fields })
    }

    /// Prepares the upload of an image now.
    pub fn upload_image(&self, base64_data: &str, public_id: Option<String>) -> (r: Result<
        UploadRequest,
        String,
    >)
        ensures
            match base64_decoded(image_payload(base64_data@)) {
                None => r matches Err(e) && has_prefix(e@, "Failed to decode base64: "@),
                Some(bytes) => r matches Ok(request) && {
                    &&& request.url@ == "https://api.cloudinary.com/v1_1/"@
                        + self.config().cloud_name@ + "/image/upload"@
                    &&& request.file@ == bytes
                    &&& request.file_name@ == "profile.jpg"@
                    &&& exists|timestamp: int|
                        timestamp >= 0 && request.fields@.map_values(
                            |f: (String, String)| (f.0@, f.1@),
                        ) == #[trigger] upload_fields(
                            self.config().api_key@,
                            self.config().api_secret@,
                            timestamp,
                            public_id,
                        )
                },
            },
    {
        let timestamp = clock_seconds();
        self.upload_image_at(base64_data, public_id, timestamp)
    }
}

/// Reads the answer of the image host: on success the address it gave the
/// image, which must be there; otherwise what it said went wrong.
pub fn upload_outcome(succeeded: bool, secure_url: Option<String>, error_text: String) -> (r:
    Result<String, String>)
    ensures
        succeeded ==> match secure_url {
            Some(url) => r == Ok::<String, String>(url),
            None => r matches Err(e) && e@ == "No secure_url in Cloudinary response"@,
        },
        !succeeded ==> (r matches Err(e) && e@ == "Cloudinary upload failed: "@ + error_text@),
{
    if succeeded {
        match secure_url {
            Some(url) => Ok(url),
            None => Err(String::from_str("No secure_url in Cloudinary response")),
        }
    } else {
        Err(String::from_str("Cloudinary upload failed: ").concat(error_text.as_str()))
    }
}

} // verus!
