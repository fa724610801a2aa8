//! Parsing of telemetry payloads: JSON objects and strings, and a custom
//! tuple list such as `{ (topic: belt-4, data: 1.2V, datetime: now), (...) }`.

use vstd::prelude::*;
use serde_json::Value as JsonValue;
use crate::text::{
    lemma_trim_ws_idempotent,
    ascii_lower, chars_eq_str, chars_of, ends_with_char, eq_ignore_ascii_case, split, split_on,
    split_once, split_once_char, starts_with_char, string_from_chars, string_of, sub_chars, to_ascii_lowercase,
    to_lowercase, trim, trim_char, trim_end_char, trim_end_matches, trim_matches, trim_start_char,
    trim_start_matches, trim_ws, unicode_lowercase, views,
};
use crate::time::{
    Timestamp, utc_now, parse_rfc3339, rfc3339_instant, parse_i64, parsed_i64, utc_from_secs,
    utc_secs_in_range,
};

verus! {

/// One telemetry sample: the logical topic, the raw data text and its time.
#[derive(Clone, Debug)]
pub struct ParsedSample {
    pub logical_topic: String,
    pub data_raw: String,
    pub ts: Timestamp,
}

/// The topic, data text and time of a sample.
pub open spec fn sample_view(s: ParsedSample) -> (Seq<char>, Seq<char>, Timestamp) {
    (s.logical_topic@, s.data_raw@, s.ts)
}

/// The instant a datetime field denotes, with `now` standing for the current
/// time: quotes and white space around it are ignored; "now" in any ASCII
/// case and the empty text mean `now`; then an RFC 3339 date and time, then
/// whole seconds since the Unix epoch; anything else means `now`.
pub open spec fn datetime_at(s: Seq<char>, now: Timestamp) -> Timestamp {
    let t = trim_char(trim_ws(s), '"');
    if eq_ignore_ascii_case(t, "now"@) || t.len() == 0 {
        now
    } else {
        match rfc3339_instant(t) {
            Some((secs, nanos)) => Timestamp { secs, nanos },
            None => match parsed_i64(t) {
                Some(sec) => if utc_secs_in_range(sec) {
                    Timestamp { secs: sec, nanos: 0 }
                } else {
                    now
                },
                None => now,
            },
        }
    }
}

/// The instant a datetime field denotes, with `now` standing for the current time.
pub fn parse_datetime_at(s: &str, now: Timestamp) -> (t: Timestamp)
    ensures
        t == datetime_at(s@, now),
{
    let v = trim_matches(&trim(&chars_of(s)), '"');
    let lower = to_ascii_lowercase(&v);
    let is_now = chars_eq_str(&lower, "now");
    proof {
        reveal_strlit("now");
        assert(ascii_lower("now"@) =~= "now"@);
    }
    if is_now || v.len() == 0 {
        return now;
    }
    let text = string_from_chars(&v);
    match parse_rfc3339(text.as_str()) {
        Some(t) => {
            return t;
        },
        None => {},
    }
    match parse_i64(text.as_str()) {
        Some(sec) => match utc_from_secs(sec) {
            Some(t) => t,
            None => now,
        },
        None => now,
    }
}

/// The instant a datetime field denotes, with the current time for "now",
/// for an empty field and for a field that cannot be read.
pub fn parse_datetime(s: &str) -> (t: Timestamp)
    ensures
        exists|now: Timestamp| t == datetime_at(s@, now),
{
    let now = utc_now();
    parse_datetime_at(s, now)
}

/// The text with its outer braces removed, if it has both.
pub open spec fn strip_braces(s: Seq<char>) -> Seq<char> {
    if s.len() > 0 && s[0] == '{' && s.last() == '}' {
        trim_ws(s.subrange(1, s.len() - 1))
    } else {
        s
    }
}

/// A piece of the tuple list without white space and closing parentheses at its end.
pub open spec fn clean_piece(x: Seq<char>) -> Seq<char> {
    trim_ws(trim_end_char(trim_ws(x), ')'))
}

/// The inside of a tuple: without opening parentheses, closing ones and white space.
pub open spec fn inner_item(c: Seq<char>) -> Seq<char> {
    trim_ws(trim_end_char(trim_start_char(trim_ws(c), '('), ')'))
}

/// The key of a `key: value` part, trimmed and in Unicode lower case.
pub open spec fn part_key(p: Seq<char>) -> Seq<char> {
    unicode_lowercase(trim_ws(split_once_char(trim_ws(p), ':').0))
}

/// The value of a `key: value` part, trimmed and without surrounding double
/// quotes; empty when the part has no colon.
pub open spec fn part_value(p: Seq<char>) -> Seq<char> {
    trim_char(
        trim_ws(
            match split_once_char(trim_ws(p), ':').1 {
                Some(v) => v,
                None => Seq::empty(),
            },
        ),
        '"',
    )
}

/// The topic, data and datetime fields of a tuple as far as one more part sets them.
pub open spec fn apply_part(
    acc: (Option<Seq<char>>, Option<Seq<char>>, Option<Seq<char>>),
    p: Seq<char>,
) -> (Option<Seq<char>>, Option<Seq<char>>, Option<Seq<char>>) {
    let k = part_key(p);
    let v = part_value(p);
    if k == "topic"@ {
        (Some(v), acc.1, acc.2)
    } else if k == "data"@ || k == "value"@ {
        (acc.0, Some(v), acc.2)
    } else if k == "datetime"@ || k == "ts"@ || k == "time"@ {
        (acc.0, acc.1, Some(v))
    } else {
        acc
    }
}

/// The topic, data and datetime fields that the parts of a tuple set; a later
/// part replaces an earlier one for the same field, other keys are ignored.
pub open spec fn fold_parts(parts: Seq<Seq<char>>) -> (Option<Seq<char>>, Option<Seq<char>>, Option<Seq<char>>)
    decreases parts.len(),
{
    if parts.len() == 0 {
        (None, None, None)
    } else {
        apply_part(fold_parts(parts.drop_last()), parts.last())
    }
}

/// The sample one piece of the tuple list gives, if any: a piece that is blank
/// once cleaned, or whose data field is missing or empty, gives none; the
/// topic defaults to `mqtt_topic` and the time to `now`.
pub open spec fn item_sample(piece: Seq<char>, mqtt_topic: Seq<char>, now: Timestamp) -> Option<
    (Seq<char>, Seq<char>, Timestamp),
> {
    let c = clean_piece(piece);
    if c.len() == 0 {
        None
    } else {
        let x = inner_item(c);
        if x.len() == 0 {
            None
        } else {
            let f = fold_parts(split_on(x, seq![',']));
            if f.1 is Some && f.1->0.len() > 0 {
                Some(
                    (
                        match f.0 {
                            Some(t) => t,
                            None => mqtt_topic,
                        },
                        f.1->0,
                        match f.2 {
                            Some(d) => datetime_at(d, now),
                            None => now,
                        },
                    ),
                )
            } else {
                None
            }
        }
    }
}

/// The samples of a list of pieces, in order.
pub open spec fn pieces_samples(pieces: Seq<Seq<char>>, mqtt_topic: Seq<char>, now: Timestamp) -> Seq<
    (Seq<char>, Seq<char>, Timestamp),
>
    decreases pieces.len(),
{
    if pieces.len() == 0 {
        Seq::empty()
    } else {
        pieces_samples(pieces.drop_last(), mqtt_topic, now) + match item_sample(pieces.last(), mqtt_topic, now) {
            Some(s) => seq![s],
            None => Seq::empty(),
        }
    }
}

/// The samples of a custom tuple list: the trimmed text, without outer braces,
/// is split at each "),", and each piece gives at most one sample.
pub open spec fn tuple_list_samples(t: Seq<char>, mqtt_topic: Seq<char>, now: Timestamp) -> Seq<
    (Seq<char>, Seq<char>, Timestamp),
> {
    pieces_samples(split_on(strip_braces(trim_ws(t)), "),"@), mqtt_topic, now)
}

proof fn lemma_pieces_samples_have_data(pieces: Seq<Seq<char>>, mqtt_topic: Seq<char>, now: Timestamp)
    ensures
        forall|i: int|
            0 <= i < pieces_samples(pieces, mqtt_topic, now).len() ==> (#[trigger] pieces_samples(
                pieces,
                mqtt_topic,
                now,
            )[i]).1.len() > 0,
    decreases pieces.len(),
{
    if pieces.len() > 0 {
        let init = pieces.drop_last();
        lemma_pieces_samples_have_data(init, mqtt_topic, now);
        let a = pieces_samples(init, mqtt_topic, now);
        let b = match item_sample(pieces.last(), mqtt_topic, now) {
            Some(x) => seq![x],
            None => Seq::<(Seq<char>, Seq<char>, Timestamp)>::empty(),
        };
        assert(pieces_samples(pieces, mqtt_topic, now) == a + b);
        assert forall|i: int| 0 <= i < (a + b).len() implies (#[trigger] (a + b)[i]).1.len() > 0 by {
            if i < a.len() {
                assert((a + b)[i] == a[i]);
            } else {
                assert((a + b)[i] == b[i - a.len()]);
            }
        }
    }
}

/// Items without data are skipped: every sample that a tuple list gives has
/// non-empty data text.
pub proof fn lemma_tuple_samples_have_data(t: Seq<char>, mqtt_topic: Seq<char>, now: Timestamp)
    ensures
        forall|i: int|
            0 <= i < tuple_list_samples(t, mqtt_topic, now).len() ==> (#[trigger] tuple_list_samples(
                t,
                mqtt_topic,
                now,
            )[i]).1.len() > 0,
{
    lemma_pieces_samples_have_data(split_on(strip_braces(trim_ws(t)), "),"@), mqtt_topic, now);
}

/// How the parts of a tuple set its fields: a part keyed `topic` sets the
/// topic, one keyed `data` or `value` the data, and one keyed `datetime`, `ts`
/// or `time` the time, each to the part's value, replacing what earlier parts
/// set; a part with any other key changes nothing.
pub proof fn lemma_tuple_parts(parts: Seq<Seq<char>>, p: Seq<char>)
    ensures
        ({
            let before = fold_parts(parts);
            let after = fold_parts(parts.push(p));
            let k = part_key(p);
            let v = part_value(p);
            &&& k == "topic"@ ==> after == (Some(v), before.1, before.2)
            &&& (k == "data"@ || k == "value"@) ==> after == (before.0, Some(v), before.2)
            &&& (k == "datetime"@ || k == "ts"@ || k == "time"@) ==> after == (before.0, before.1, Some(v))
            &&& !(k == "topic"@ || k == "data"@ || k == "value"@ || k == "datetime"@ || k == "ts"@ || k == "time"@)
                ==> after == before
        }),
        fold_parts(Seq::empty()) == (None::<Seq<char>>, None::<Seq<char>>, None::<Seq<char>>),
{
    assert(parts.push(p).drop_last() =~= parts);
    reveal_strlit("topic");
    reveal_strlit("data");
    reveal_strlit("value");
    reveal_strlit("datetime");
    reveal_strlit("ts");
    reveal_strlit("time");
    assert("topic"@.len() == 5 && "value"@.len() == 5 && "datetime"@.len() == 8 && "data"@.len() == 4);
    assert("ts"@.len() == 2 && "time"@.len() == 4);
    assert("topic"@[0] == 't' && "value"@[0] == 'v' && "data"@[0] == 'd' && "time"@[0] == 't');
    assert("topic"@ != "value"@);
    assert("data"@ != "time"@);
}

/// A tuple gives a sample exactly when its data field is set and not empty;
/// the sample's topic is its topic field, else `mqtt_topic`, and its time is
/// read from its time field, else it is `now`.
pub proof fn lemma_tuple_item_sample(piece: Seq<char>, mqtt_topic: Seq<char>, now: Timestamp)
    requires
        clean_piece(piece).len() > 0,
        inner_item(clean_piece(piece)).len() > 0,
    ensures
        ({
            let f = fold_parts(split_on(inner_item(clean_piece(piece)), seq![',']));
            &&& item_sample(piece, mqtt_topic, now) is Some <==> (f.1 matches Some(d) && d.len() > 0)
            &&& item_sample(piece, mqtt_topic, now) matches Some(x) ==> {
                &&& x.0 == (if f.0 is Some { f.0->0 } else { mqtt_topic })
                &&& x.1 == f.1->0
                &&& x.2 == (if f.2 is Some { datetime_at(f.2->0, now) } else { now })
            }
        }),
{
}

fn part_fields(
    p: &Vec<char>,
    acc: (Option<Vec<char>>, Option<Vec<char>>, Option<Vec<char>>),
) -> (r: (Option<Vec<char>>, Option<Vec<char>>, Option<Vec<char>>))
    ensures
        opt_views(r) == apply_part(opt_views(acc), p@),
{
    let tp = trim(p);
    let (k0, v0) = split_once(&tp, ':');
    let key_text = string_from_chars(&trim(&k0));
    let k = chars_of(to_lowercase(key_text.as_str()).as_str());
    let raw = match v0 {
        Some(v) => v,
        None => Vec::new(),
    };
    proof {
        assert(raw@ == match split_once_char(trim_ws(p@), ':').1 {
            Some(v) => v,
            None => Seq::<char>::empty(),
        });
    }
    let v = trim_matches(&trim(&raw), '"');
    let (t, d, dt) = acc;
    if chars_eq_str(&k, "topic") {
        (Some(v), d, dt)
    } else if chars_eq_str(&k, "data") || chars_eq_str(&k, "value") {
        (t, Some(v), dt)
    } else if chars_eq_str(&k, "datetime") || chars_eq_str(&k, "ts") || chars_eq_str(&k, "time") {
        (t, d, Some(v))
    } else {
        (t, d, dt)
    }
}

/// The views of optional character vectors.
pub open spec fn opt_view(o: Option<Vec<char>>) -> Option<Seq<char>> {
    match o {
        Some(v) => Some(v@),
        None => None,
    }
}

/// The views of three optional character vectors.
pub open spec fn opt_views(o: (Option<Vec<char>>, Option<Vec<char>>, Option<Vec<char>>)) -> (
    Option<Seq<char>>,
    Option<Seq<char>>,
    Option<Seq<char>>,
) {
    (opt_view(o.0), opt_view(o.1), opt_view(o.2))
}

fn piece_sample(piece: &Vec<char>, mqtt_topic: &str, now: Timestamp) -> (r: Option<ParsedSample>)
    ensures
        match r {
            Some(s) => item_sample(piece@, mqtt_topic@, now) == Some(sample_view(s)),
            None => item_sample(piece@, mqtt_topic@, now) is None,
        },
{
    let c = trim(&trim_end_matches(&trim(piece), ')'));
    if c.len() == 0 {
        return None;
    }
    let x = trim(&trim_end_matches(&trim_start_matches(&trim(&c), '('), ')'));
    if x.len() == 0 {
        return None;
    }
    let comma = chars_of(",");
    proof {
        reveal_strlit(",");
        assert(comma@ =~= seq![',']);
    }
    let parts = split(&x, &comma);
    let mut acc: (Option<Vec<char>>, Option<Vec<char>>, Option<Vec<char>>) = (None, None, None);
    let mut i: usize = 0;
    let ghost ps = views(parts@);
    while i < parts.len()
        invariant
            ps == views(parts@),
            ps == split_on(x@, seq![',']),
            i <= parts@.len(),
            opt_views(acc) == fold_parts(ps.take(i as int)),
        decreases parts.len() - i,
    {
        acc = part_fields(&parts[i], acc);
        proof {
            assert(ps.take(i + 1).drop_last() =~= ps.take(i as int));
            assert(ps[i as int] == parts@[i as int]@);
        }
        i = i + 1;
    }
    proof {
        assert(ps.take(parts@.len() as int) =~= ps);
    }
    let (topic, data, datetime) = acc;
    let data = match data {
        Some(d) => d,
        None => {
            return None;
        },
    };
    if data.len() == 0 {
        return None;
    }
    let logical_topic = match topic {
        Some(t) => string_from_chars(&t),
        None => string_of(mqtt_topic),
    };
    let ts = match datetime {
        Some(d) => parse_datetime_at(string_from_chars(&d).as_str(), now),
        None => now,
    };
    Some(ParsedSample { logical_topic, data_raw: string_from_chars(&data), ts })
}

/// The samples of a custom tuple list, with `now` as the time of samples that
/// give none and of those whose time is "now".
pub fn parse_custom_tuple_list_at(t: &str, mqtt_topic: &str, now: Timestamp) -> (out: Vec<ParsedSample>)
    ensures
        out@.map_values(|s: ParsedSample| sample_view(s)) == tuple_list_samples(t@, mqtt_topic@, now),
{
    let tv = trim(&chars_of(t));
    let body = if starts_with_char(&tv, '{') && ends_with_char(&tv, '}') {
        trim(&sub_chars(&tv, 1, tv.len() - 1))
    } else {
        tv
    };
    let pat = chars_of("),");
    proof {
        reveal_strlit("),");
    }
    let pieces = split(&body, &pat);
    let ghost ps = views(pieces@);
    let mut out: Vec<ParsedSample> = Vec::new();
    let mut i: usize = 0;
    while i < pieces.len()
        invariant
            ps == views(pieces@),
            ps == split_on(strip_braces(trim_ws(t@)), "),"@),
            i <= pieces@.len(),
            out@.map_values(|s: ParsedSample| sample_view(s)) == pieces_samples(ps.take(i as int), mqtt_topic@, now),
        decreases pieces.len() - i,
    {
        let ghost before = out@;
        match piece_sample(&pieces[i], mqtt_topic, now) {
            Some(s) => {
                out.push(s);
                proof {
                    assert(out@.map_values(|s: ParsedSample| sample_view(s)) =~= before.map_values(
                        |s: ParsedSample| sample_view(s),
                    ).push(sample_view(s)));
                }
            },
            None => {},
        }
        proof {
            assert(ps.take(i + 1).drop_last() =~= ps.take(i as int));
            assert(ps[i as int] == pieces@[i as int]@);
        }
        i = i + 1;
    }
    proof {
        assert(ps.take(pieces@.len() as int) =~= ps);
    }
    out
}

/// A JSON value as the parser reads it: its kind and its compact JSON text
/// (what `serde_json::Value::to_string` gives).
#[derive(Debug)]
pub struct JsonNode {
    pub kind: JsonKind,
    pub text: String,
}

/// The kind of a JSON value, with the contents that the parser reads.
#[derive(Debug)]
pub enum JsonKind {
    Null,
    Bool(bool),
    Number,
    Str(String),
    Array(Vec<JsonNode>),
    /// The members of an object, each key once.
    Object(Vec<(String, JsonNode)>),
}

/// The value of the first member named `key`, if any.
pub open spec fn json_lookup(fields: Seq<(String, JsonNode)>, key: Seq<char>) -> Option<JsonNode>
    decreases fields.len(),
{
    if fields.len() == 0 {
        None
    } else if fields[0].0@ == key {
        Some(fields[0].1)
    } else {
        json_lookup(fields.drop_first(), key)
    }
}

/// The text of a JSON string, if `n` is one.
pub open spec fn json_str(n: Option<JsonNode>) -> Option<Seq<char>> {
    match n {
        Some(v) => match v.kind {
            JsonKind::Str(s) => Some(s@),
            _ => None,
        },
        None => None,
    }
}

/// The first of two optional values that is present.
pub open spec fn either<T>(a: Option<T>, b: Option<T>) -> Option<T> {
    match a {
        Some(x) => Some(x),
        None => b,
    }
}

/// The sample a JSON object gives, if any: the topic is the "topic" string or
/// `mqtt_topic`; the data is the "data" member, else the "value" member, as
/// its text if it is a string and as JSON text otherwise, and without either
/// there is no sample; the time is read from the "datetime" member, else the
/// "ts" member, if that is a string, and is `now` otherwise.
pub open spec fn object_sample(fields: Seq<(String, JsonNode)>, mqtt_topic: Seq<char>, now: Timestamp) -> Option<
    (Seq<char>, Seq<char>, Timestamp),
> {
    let topic = match json_str(json_lookup(fields, "topic"@)) {
        Some(t) => t,
        None => mqtt_topic,
    };
    match either(json_lookup(fields, "data"@), json_lookup(fields, "value"@)) {
        None => None,
        Some(v) => {
            let raw = match v.kind {
                JsonKind::Str(s) => s@,
                _ => v.text@,
            };
            let ts = match json_str(either(json_lookup(fields, "datetime"@), json_lookup(fields, "ts"@))) {
                Some(d) => datetime_at(d, now),
                None => now,
            };
            Some((topic, raw, ts))
        },
    }
}

/// The samples a JSON payload gives: a string is one sample of `mqtt_topic`
/// at `now`; an object gives at most one sample; any other value gives none.
pub open spec fn json_samples(v: JsonNode, mqtt_topic: Seq<char>, now: Timestamp) -> Seq<
    (Seq<char>, Seq<char>, Timestamp),
> {
    match v.kind {
        JsonKind::Str(s) => seq![(mqtt_topic, s@, now)],
        JsonKind::Object(fields) => match object_sample(fields@, mqtt_topic, now) {
            Some(x) => seq![x],
            None => Seq::empty(),
        },
        _ => Seq::empty(),
    }
}

/// A JSON string gives one sample of `mqtt_topic` with the string's contents
/// as data, at `now`; an object without a "data" or "value" member, and any
/// value other than a string or an object, gives none.
pub proof fn lemma_json_samples_shape(v: JsonNode, mqtt_topic: Seq<char>, now: Timestamp)
    ensures
        v.kind is Str ==> json_samples(v, mqtt_topic, now) == seq![(mqtt_topic, v.kind->Str_0@, now)],
        (v.kind is Object && json_lookup(v.kind->Object_0@, "data"@) is None && json_lookup(
            v.kind->Object_0@,
            "value"@,
        ) is None) ==> json_samples(v, mqtt_topic, now).len() == 0,
        !(v.kind is Str || v.kind is Object) ==> json_samples(v, mqtt_topic, now).len() == 0,
{
}

/// A JSON object that has a "data" (else "value") member gives exactly one
/// sample: its topic is the "topic" string, else `mqtt_topic`; its data is
/// that member's text (a string's contents, else its JSON text); its time is
/// read from the "datetime" member when that is a string, so that an RFC 3339
/// instant there is the sample's time whatever `now` is, and from the "ts"
/// member only when there is no "datetime" member; with neither it is `now`.
pub proof fn lemma_object_sample(v: JsonNode, mqtt_topic: Seq<char>, now: Timestamp)
    requires
        v.kind is Object,
        json_lookup(v.kind->Object_0@, "data"@) is Some || json_lookup(v.kind->Object_0@, "value"@) is Some,
    ensures
        json_samples(v, mqtt_topic, now).len() == 1,
        ({
            let fields = v.kind->Object_0@;
            let (topic, raw, t) = json_samples(v, mqtt_topic, now)[0];
            let data = if json_lookup(fields, "data"@) is Some {
                json_lookup(fields, "data"@)->0
            } else {
                json_lookup(fields, "value"@)->0
            };
            &&& topic == (if json_str(json_lookup(fields, "topic"@)) is Some {
                json_str(json_lookup(fields, "topic"@))->0
            } else {
                mqtt_topic
            })
            &&& raw == (if data.kind is Str {
                data.kind->Str_0@
            } else {
                data.text@
            })
            &&& json_str(json_lookup(fields, "datetime"@)) matches Some(d) ==> t == datetime_at(d, now)
            &&& json_lookup(fields, "datetime"@) is None ==> (json_str(json_lookup(fields, "ts"@)) matches Some(d) ==> t
                == datetime_at(d, now))
            &&& json_lookup(fields, "datetime"@) is None && json_str(json_lookup(fields, "ts"@)) is None ==> t == now
            &&& json_lookup(fields, "datetime"@) is Some && json_str(json_lookup(fields, "datetime"@)) is None ==> t
                == now
        }),
        ({
            let fields = v.kind->Object_0@;
            let t = json_samples(v, mqtt_topic, now)[0].2;
            json_str(json_lookup(fields, "datetime"@)) matches Some(d) ==> ({
                let text = trim_char(trim_ws(d), '"');
                (text.len() > 0 && !eq_ignore_ascii_case(text, "now"@)) ==> (rfc3339_instant(text) matches Some(p)
                    ==> t == (Timestamp { secs: p.0, nanos: p.1 }))
            })
        }),
{
}

/// The value of the first member named `key`, if any.
pub fn json_get<'a>(fields: &'a Vec<(String, JsonNode)>, key: &str) -> (r: Option<&'a JsonNode>)
    ensures
        match r {
            Some(v) => json_lookup(fields@, key@) == Some(*v),
            None => json_lookup(fields@, key@) is None,
        },
{
    let k = string_of(key);
    let mut i: usize = 0;
    assert(fields@.skip(0) =~= fields@);
    while i < fields.len()
        invariant
            i <= fields@.len(),
            k@ == key@,
            json_lookup(fields@, key@) == json_lookup(fields@.skip(i as int), key@),
        decreases fields.len() - i,
    {
        proof {
            assert(fields@.skip(i as int).drop_first() =~= fields@.skip(i + 1));
            assert(fields@.skip(i as int)[0] == fields@[i as int]);
        }
        if fields[i].0 == k {
            return Some(&fields[i].1);
        }
        i = i + 1;
    }
    None
}

fn json_string_of(n: Option<&JsonNode>) -> (r: Option<&String>)
    ensures
        match r {
            Some(s) => json_str(match n {
                Some(v) => Some(*v),
                None => None,
            }) == Some(s@),
            None => json_str(match n {
                Some(v) => Some(*v),
                None => None,
            }) is None,
        },
{
    match n {
        Some(v) => match &v.kind {
            JsonKind::Str(s) => Some(s),
            _ => None,
        },
        None => None,
    }
}

fn object_to_sample(fields: &Vec<(String, JsonNode)>, mqtt_topic: &str, now: Timestamp) -> (r: Option<ParsedSample>)
    ensures
        match r {
            Some(s) => object_sample(fields@, mqtt_topic@, now) == Some(sample_view(s)),
            None => object_sample(fields@, mqtt_topic@, now) is None,
        },
{
    let logical_topic = match json_string_of(json_get(fields, "topic")) {
        Some(t) => t.clone(),
        None => string_of(mqtt_topic),
    };
    let data = match json_get(fields, "data") {
        Some(v) => Some(v),
        None => json_get(fields, "value"),
    };
    let v = match data {
        Some(v) => v,
        None => {
            return None;
        },
    };
    let data_raw = match &v.kind {
        JsonKind::Str(s) => s.clone(),
        _ => v.text.clone(),
    };
    let when = match json_get(fields, "datetime") {
        Some(d) => Some(d),
        None => json_get(fields, "ts"),
    };
    let ts = match json_string_of(when) {
        Some(d) => parse_datetime_at(d.as_str(), now),
        None => now,
    };
    Some(ParsedSample { logical_topic, data_raw, ts })
}

/// The samples of a JSON payload, with `now` as the default time.
pub fn parse_json_payload_at(v: &JsonNode, mqtt_topic: &str, now: Timestamp) -> (out: Vec<ParsedSample>)
    ensures
        out@.map_values(|s: ParsedSample| sample_view(s)) == json_samples(*v, mqtt_topic@, now),
{
    let mut out: Vec<ParsedSample> = Vec::new();
    match &v.kind {
        JsonKind::Str(s) => {
            out.push(ParsedSample { logical_topic: string_of(mqtt_topic), data_raw: s.clone(), ts: now });
        },
        JsonKind::Object(fields) => match object_to_sample(fields, mqtt_topic, now) {
            Some(x) => {
                out.push(x);
            },
            None => {},
        },
        _ => {},
    }
    proof {
        assert(out@.map_values(|s: ParsedSample| sample_view(s)) =~= json_samples(*v, mqtt_topic@, now));
    }
    out
}

/// Whether a trimmed payload may be JSON: it starts with `{` or `[`, or is
/// enclosed in double quotes.
pub open spec fn looks_like_json(t: Seq<char>) -> bool {
    (t.len() > 0 && (t[0] == '{' || t[0] == '['))
        || (t.len() > 0 && t[0] == '"' && t.last() == '"')
}

/// The trimmed payload, if it may be JSON and should be parsed as such.
pub fn json_candidate(text: &str) -> (r: Option<String>)
    ensures
        match r {
            Some(t) => t@ == trim_ws(text@) && t@.len() > 0 && looks_like_json(t@),
            None => trim_ws(text@).len() == 0 || !looks_like_json(trim_ws(text@)),
        },
{
    let t = trim(&chars_of(text));
    if t.len() == 0 {
        return None;
    }
    if starts_with_char(&t, '{') || starts_with_char(&t, '[') || (starts_with_char(&t, '"') && ends_with_char(&t, '"')) {
        Some(string_from_chars(&t))
    } else {
        None
    }
}

/// The samples of a telemetry payload: none for a blank payload; for one that
/// looks like JSON and parsed as JSON (`json` is that parse, as
/// `serde_json::from_str` of the trimmed text gives it), the samples of the
/// JSON value; otherwise those of the custom tuple list.
pub open spec fn payload_samples(text: Seq<char>, mqtt_topic: Seq<char>, json: Option<JsonNode>, now: Timestamp) -> Seq<
    (Seq<char>, Seq<char>, Timestamp),
> {
    let t = trim_ws(text);
    if t.len() == 0 {
        Seq::empty()
    } else if looks_like_json(t) && json is Some {
        json_samples(json->0, mqtt_topic, now)
    } else {
        tuple_list_samples(t, mqtt_topic, now)
    }
}

/// The samples of a telemetry payload, given the JSON parse of its trimmed
/// text (if it may be JSON and parsed) and `now` as the default time.
pub fn parse_payload_with(text: &str, mqtt_topic: &str, json: Option<JsonNode>, now: Timestamp) -> (out: Vec<ParsedSample>)
    ensures
        out@.map_values(|s: ParsedSample| sample_view(s)) == payload_samples(text@, mqtt_topic@, json, now),
{
    let t = trim(&chars_of(text));
    if t.len() == 0 {
        let out: Vec<ParsedSample> = Vec::new();
        proof {
            assert(out@.map_values(|s: ParsedSample| sample_view(s)) =~= Seq::<(Seq<char>, Seq<char>, Timestamp)>::empty());
        }
        return out;
    }
    let looks = starts_with_char(&t, '{') || starts_with_char(&t, '[') || (starts_with_char(&t, '"') && ends_with_char(&t, '"'));
    if looks {
        match &json {
            Some(v) => {
                return parse_json_payload_at(v, mqtt_topic, now);
            },
            None => {},
        }
    }
    let ts = string_from_chars(&t);
    proof {
        lemma_trim_ws_idempotent(text@);
    }
    parse_custom_tuple_list_at(ts.as_str(), mqtt_topic, now)
}

/// The JSON value that `serde_json::from_str::<serde_json::Value>` reads from
/// `text`, as the library's JSON node, if the text is JSON.
pub uninterp spec fn json_of_text(text: Seq<char>) -> Option<JsonNode>;

/// Parses `text` with `serde_json::from_str::<serde_json::Value>` and converts
/// the value into a JSON node, one node per JSON value (each node's text is
/// `Value::to_string` of its value); the result is named, not stated.
#[verifier::external_body]
fn parse_json_text(text: &str) -> (r: Option<JsonNode>)
    ensures
        r == json_of_text(text@),
{
    let v: JsonValue = serde_json::from_str(text).ok()?;
    let kind = match &v {
        JsonValue::Null => JsonKind::Null,
        JsonValue::Bool(b) => JsonKind::Bool(*b),
        JsonValue::Number(_) => JsonKind::Number,
        JsonValue::String(s) => JsonKind::Str(s.clone()),
        JsonValue::Array(a) => JsonKind::Array(a.iter().map(|x| parse_json_text(&x.to_string())).collect::<Option<_>>()?),
        JsonValue::Object(m) => JsonKind::Object(m.iter().map(|(k, x)| Some((k.clone(), parse_json_text(&x.to_string())?))).collect::<Option<_>>()?),
    };
    Some(JsonNode { kind, text: v.to_string() })
}

/// The samples of a telemetry payload with `now` as the default time; a
/// payload that may be JSON is parsed as JSON.
pub fn parse_payload_at(text: &str, mqtt_topic: &str, now: Timestamp) -> (out: Vec<ParsedSample>)
    ensures
        out@.map_values(|s: ParsedSample| sample_view(s)) == payload_samples(
            text@,
            mqtt_topic@,
            json_of_text(trim_ws(text@)),
            now,
        ),
{
    let json = match json_candidate(text) {
        Some(t) => parse_json_text(t.as_str()),
        None => None,
    };
    parse_payload_with(text, mqtt_topic, json, now)
}

/// The samples of a telemetry payload, with the current time as the default.
pub fn parse_payload(text: &str, mqtt_topic: &str) -> (out: Vec<ParsedSample>)
    ensures
        exists|now: Timestamp| out@.map_values(|s: ParsedSample| sample_view(s)) == payload_samples(
            text@,
            mqtt_topic@,
            json_of_text(trim_ws(text@)),
            now,
        ),
{
    let now = utc_now();
    parse_payload_at(text, mqtt_topic, now)
}

/// The groups that the regular expression `pattern` captures in `text`, as
/// `regex::Regex::captures` finds them (group 0 being the whole match), if the
/// pattern compiles and matches.
pub uninterp spec fn regex_captures(pattern: Seq<char>, text: Seq<char>) -> Option<Seq<Option<Seq<char>>>>;

/// The view of an optional string.
pub open spec fn opt_string_view(o: Option<String>) -> Option<Seq<char>> {
    match o {
        Some(s) => Some(s@),
        None => None,
    }
}

/// Compiles `pattern` with `regex::Regex::new` and returns the groups that
/// `Regex::captures` finds in `text`, each as an owned string; the result is
/// named, not stated.
#[verifier::external_body]
pub(crate) fn captures(pattern: &str, text: &str) -> (r: Option<Vec<Option<String>>>)
    ensures
        match r {
            Some(groups) => regex_captures(pattern@, text@) == Some(
                groups@.map_values(|o: Option<String>| opt_string_view(o)),
            ),
            None => regex_captures(pattern@, text@) is None,
        },
{
    match regex::Regex::new(pattern) {
        Ok(re) => re.captures(text).map(|c| c.iter().map(|m| m.map(|m| m.as_str().to_string())).collect()),
        Err(_) => None,
    }
}

/// A number followed by an optional unit, such as "1.2V", "450 rpm",
/// "-10.0°C" or "23.5"; a comma may stand for the decimal point.
pub const VALUE_AND_UNIT_PATTERN: &'static str = "^\\s*([+-]?\\d+(?:[.,]\\d+)?)\\s*([^\\d\\s].*)?\\s*$";

/// `s` with each comma replaced by a point.
pub open spec fn comma_to_point(s: Seq<char>) -> Seq<char> {
    s.map_values(|c: char| if c == ',' { '.' } else { c })
}

/// The `i`-th captured group, if the match has it.
pub open spec fn group(caps: Seq<Option<Seq<char>>>, i: int) -> Option<Seq<char>> {
    if 0 <= i < caps.len() {
        caps[i]
    } else {
        None
    }
}

/// The number text (with a point for a decimal comma) and the unit (trimmed,
/// absent when blank) that `data_raw` holds, as the value-and-unit pattern
/// captures them in the trimmed text; neither when it does not match.
pub open spec fn value_and_unit(data_raw: Seq<char>) -> (Option<Seq<char>>, Option<Seq<char>>) {
    match regex_captures(VALUE_AND_UNIT_PATTERN@, trim_ws(data_raw)) {
        Some(caps) => (
            match group(caps, 1) {
                Some(n) => Some(comma_to_point(n)),
                None => None,
            },
            match group(caps, 2) {
                Some(u) => if trim_ws(u).len() > 0 {
                    Some(trim_ws(u))
                } else {
                    None
                },
                None => None,
            },
        ),
        None => (None, None),
    }
}

fn replace_commas(v: &Vec<char>) -> (r: Vec<char>)
    ensures
        r@ == comma_to_point(v@),
{
    let mut r: Vec<char> = Vec::new();
    let mut i: usize = 0;
    while i < v.len()
        invariant
            i <= v@.len(),
            r@ == comma_to_point(v@.take(i as int)),
        decreases v.len() - i,
    {
        let c = v[i];
        r.push(if c == ',' { '.' } else { c });
        proof {
            assert(comma_to_point(v@.take(i + 1)) =~= comma_to_point(v@.take(i as int)).push(
                if c == ',' { '.' } else { c },
            ));
        }
        i = i + 1;
    }
    assert(v@.take(v@.len() as int) =~= v@);
    r
}

/// The number text and unit of a telemetry value; the caller reads the number
/// text as a float.
pub fn split_value_and_unit(data_raw: &str) -> (r: (Option<String>, Option<String>))
    ensures
        opt_string_view(r.0) == value_and_unit(data_raw@).0,
        opt_string_view(r.1) == value_and_unit(data_raw@).1,
{
    let s = string_from_chars(&trim(&chars_of(data_raw)));
    match captures(VALUE_AND_UNIT_PATTERN, s.as_str()) {
        Some(groups) => {
            let ghost caps = groups@.map_values(|o: Option<String>| opt_string_view(o));
            let num = if groups.len() > 1 {
                match &groups[1] {
                    Some(n) => Some(string_from_chars(&replace_commas(&chars_of(n.as_str())))),
                    None => None,
                }
            } else {
                None
            };
            let unit = if groups.len() > 2 {
                match &groups[2] {
                    Some(u) => {
                        let t = trim(&chars_of(u.as_str()));
                        if t.len() > 0 {
                            Some(string_from_chars(&t))
                        } else {
                            None
                        }
                    },
                    None => None,
                }
            } else {
                None
            };
            proof {
                if groups@.len() > 1 {
                    assert(caps[1] == opt_string_view(groups@[1]));
                }
                if groups@.len() > 2 {
                    assert(caps[2] == opt_string_view(groups@[2]));
                }
            }
            (num, unit)
        },
        None => (None, None),
    }
}

} // verus!
