//! The `Debug` texts that error reasons carry: those of the engine's errors
//! and of the JSON values in them, as `derive(Debug)` and `serde_json`'s
//! `Debug` write them. Object members are written ordered by key, one per
//! key (the last one given), as a `serde_json` map holds them.
use vstd::prelude::*;
use crate::adapters::models::common_error::{ErrorDefinition, ErrorView};
use crate::db::repos::DbRepoError;
use crate::db::services::DbServiceError;
use crate::foreign::text::{debug_quoted, quoted_text};
use crate::json::{json_of, json_of_items, json_of_members, lemma_json_of_items, lemma_json_of_members, str_equal, Json, JsonNumber, JsonValue};

verus! {

/// The decimal digit for `d` (0 to 9).
pub open spec fn digit_char(d: int) -> char {
    (d + 48) as char
}

/// The decimal text of `n`, without leading zeros.
pub open spec fn nat_text(n: nat) -> Seq<char>
    decreases n,
{
    if n < 10 {
        seq![digit_char(n as int)]
    } else {
        nat_text(n / 10).push(digit_char((n % 10) as int))
    }
}

/// The decimal text of `i`, with a leading `-` when it is negative.
pub open spec fn int_text(i: int) -> Seq<char> {
    if i < 0 {
        seq!['-'] + nat_text((-i) as nat)
    } else {
        nat_text(i as nat)
    }
}

/// What a JSON number writes inside `Number(..)`: an integer in decimal; a
/// float by the decimal of its IEEE-754 bit pattern after `bits:`.
pub open spec fn number_text(n: JsonNumber) -> Seq<char> {
    match n {
        JsonNumber::PosInt(u) => nat_text(u as nat),
        JsonNumber::NegInt(i) => int_text(i as int),
        JsonNumber::Float(b) => "bits:"@ + nat_text(b as nat),
    }
}

/// The parts written one after the other, separated by `, `.
pub open spec fn joined(parts: Seq<Seq<char>>) -> Seq<char>
    decreases parts.len(),
{
    if parts.len() == 0 {
        Seq::empty()
    } else if parts.len() == 1 {
        parts[0]
    } else {
        joined(parts.drop_last()) + ", "@ + parts.last()
    }
}

/// Whether `a` comes before `b`: the order of their characters' code
/// points, a proper prefix first (the order of their UTF-8 bytes).
pub open spec fn key_less(a: Seq<char>, b: Seq<char>) -> bool
    decreases a.len(),
{
    if a.len() == 0 {
        b.len() > 0
    } else if b.len() == 0 {
        false
    } else if (a[0] as int) < (b[0] as int) {
        true
    } else if (a[0] as int) > (b[0] as int) {
        false
    } else {
        key_less(a.drop_first(), b.drop_first())
    }
}

/// The entries, ordered by key, with `x` put in its place; an entry with
/// the same key is replaced.
pub open spec fn insert_entry(sorted: Seq<(Seq<char>, Seq<char>)>, x: (Seq<char>, Seq<char>)) -> Seq<(Seq<char>, Seq<char>)>
    decreases sorted.len(),
{
    if sorted.len() == 0 {
        seq![x]
    } else if key_less(x.0, sorted[0].0) {
        seq![x] + sorted
    } else if x.0 == sorted[0].0 {
        seq![x] + sorted.drop_first()
    } else {
        seq![sorted[0]] + insert_entry(sorted.drop_first(), x)
    }
}

/// The entries ordered by key, the last given of each key kept.
pub open spec fn sort_entries(entries: Seq<(Seq<char>, Seq<char>)>) -> Seq<(Seq<char>, Seq<char>)>
    decreases entries.len(),
{
    if entries.len() == 0 {
        Seq::empty()
    } else {
        insert_entry(sort_entries(entries.drop_last()), entries.last())
    }
}

/// How a map entry is written: the quoted key, `: `, the value's text.
pub open spec fn entry_text(e: (Seq<char>, Seq<char>)) -> Seq<char> {
    quoted_text(e.0) + ": "@ + e.1
}

/// The texts of the entries, in order.
pub open spec fn entry_texts(entries: Seq<(Seq<char>, Seq<char>)>) -> Seq<Seq<char>> {
    entries.map_values(|e: (Seq<char>, Seq<char>)| entry_text(e))
}

/// The texts of the strings, in order.
pub open spec fn texts_of(parts: Seq<String>) -> Seq<Seq<char>> {
    parts.map_values(|s: String| s@)
}

/// The pairs of texts of the string pairs, in order.
pub open spec fn pair_texts(pairs: Seq<(String, String)>) -> Seq<(Seq<char>, Seq<char>)> {
    pairs.map_values(|p: (String, String)| (p.0@, p.1@))
}

/// The decimal digit text for `d`.
fn digit_str(d: u64) -> (r: &'static str)
    requires
        d < 10,
    ensures
        r@ == seq![digit_char(d as int)],
{
    proof {
        reveal_strlit("0");
        reveal_strlit("1");
        reveal_strlit("2");
        reveal_strlit("3");
        reveal_strlit("4");
        reveal_strlit("5");
        reveal_strlit("6");
        reveal_strlit("7");
        reveal_strlit("8");
        reveal_strlit("9");
    }
    let r = if d == 0 {
        "0"
    } else if d == 1 {
        "1"
    } else if d == 2 {
        "2"
    } else if d == 3 {
        "3"
    } else if d == 4 {
        "4"
    } else if d == 5 {
        "5"
    } else if d == 6 {
        "6"
    } else if d == 7 {
        "7"
    } else if d == 8 {
        "8"
    } else {
        "9"
    };
    assert(r@ =~= seq![digit_char(d as int)]);
    r
}

/// The decimal text of `n`.
pub fn nat_string(n: u64) -> (r: String)
    ensures
        r@ == nat_text(n as nat),
    decreases n,
{
    if n < 10 {
        String::from_str(digit_str(n))
    } else {
        let mut s = nat_string(n / 10);
        s.append(digit_str(n % 10));
        s
    }
}

/// What a JSON number writes inside `Number(..)`.
pub fn number_string(n: JsonNumber) -> (r: String)
    ensures
        r@ == number_text(n),
{
    match n {
        JsonNumber::PosInt(u) => nat_string(u),
        JsonNumber::NegInt(i) => {
            if i < 0 {
                let m: u64 = (0i128 - i as i128) as u64;
                let mut s = String::from_str("-");
                let t = nat_string(m);
                s.append(t.as_str());
                proof {
                    reveal_strlit("-");
                    assert(s@ =~= int_text(i as int));
                }
                s
            } else {
                nat_string(i as u64)
            }
        },
        JsonNumber::Float(b) => {
            let mut s = String::from_str("bits:");
            let t = nat_string(b);
            s.append(t.as_str());
            s
        },
    }
}

/// The parts written one after the other, separated by `, `.
pub fn join_parts(parts: &Vec<String>) -> (r: String)
    ensures
        r@ == joined(texts_of(parts@)),
{
    let mut s = String::new();
    let mut i: usize = 0;
    while i < parts.len()
        invariant
            i <= parts@.len(),
            s@ == joined(texts_of(parts@).take(i as int)),
        decreases parts@.len() - i,
    {
        let ghost t = texts_of(parts@);
        assert(t.take(i + 1).drop_last() =~= t.take(i as int));
        if i > 0 {
            s.append(", ");
        }
        s.append(parts[i].as_str());
        proof {
            if i == 0 {
                assert(s@ =~= t.take(1)[0]);
            }
        }
        i = i + 1;
    }
    assert(texts_of(parts@).take(parts@.len() as int) =~= texts_of(parts@));
    s
}

/// Whether `a` comes before `b` in the order of their code points.
pub fn key_before(a: &str, b: &str) -> (r: bool)
    ensures
        r == key_less(a@, b@),
{
    let la = a.unicode_len();
    let lb = b.unicode_len();
    let mut i: usize = 0;
    assert(a@.skip(0) =~= a@);
    assert(b@.skip(0) =~= b@);
    while i < la && i < lb
        invariant
            la == a@.len(),
            lb == b@.len(),
            i <= la,
            i <= lb,
            key_less(a@, b@) == key_less(a@.skip(i as int), b@.skip(i as int)),
        decreases la - i,
    {
        let ca = a.get_char(i);
        let cb = b.get_char(i);
        assert(a@.skip(i as int)[0] == ca);
        assert(b@.skip(i as int)[0] == cb);
        if ca < cb {
            return true;
        }
        if ca > cb {
            return false;
        }
        assert(a@.skip(i as int).drop_first() =~= a@.skip(i + 1));
        assert(b@.skip(i as int).drop_first() =~= b@.skip(i + 1));
        i = i + 1;
    }
    i < lb && i == la
}

proof fn lemma_insert_at(s: Seq<(Seq<char>, Seq<char>)>, x: (Seq<char>, Seq<char>), j: int)
    requires
        0 <= j <= s.len(),
        forall|k: int| 0 <= k < j ==> !key_less(x.0, #[trigger] s[k].0) && x.0 != s[k].0,
        j < s.len() ==> key_less(x.0, s[j].0) || x.0 == s[j].0,
    ensures
        insert_entry(s, x) == s.take(j) + seq![x] + if j < s.len() && x.0 == s[j].0 {
            s.skip(j + 1)
        } else {
            s.skip(j)
        },
    decreases j,
{
    if j == 0 {
        if s.len() == 0 {
            assert(s.take(0) + seq![x] + s.skip(0) =~= seq![x]);
        } else if key_less(x.0, s[0].0) {
            assert(x.0 != s[0].0) by {
                lemma_key_less_irreflexive(x.0);
            }
            assert(s.take(0) + seq![x] + s.skip(0) =~= seq![x] + s);
        } else {
            assert(x.0 == s[0].0);
            assert(s.take(0) + seq![x] + s.skip(1) =~= seq![x] + s.drop_first());
        }
    } else {
        let t = s.drop_first();
        assert forall|k: int| 0 <= k < j - 1 implies !key_less(x.0, #[trigger] t[k].0) && x.0 != t[k].0 by {
            assert(t[k] == s[k + 1]);
        }
        if j < s.len() {
            assert(t[j - 1] == s[j]);
        }
        lemma_insert_at(t, x, j - 1);
        assert(!key_less(x.0, s[0].0) && x.0 != s[0].0);
        assert(insert_entry(s, x) == seq![s[0]] + insert_entry(t, x));
        if j < s.len() && x.0 == s[j].0 {
            assert(s.take(j) + seq![x] + s.skip(j + 1) =~= seq![s[0]] + (t.take(j - 1) + seq![x] + t.skip(j)));
        } else {
            assert(s.take(j) + seq![x] + s.skip(j) =~= seq![s[0]] + (t.take(j - 1) + seq![x] + t.skip(j - 1)));
        }
    }
}

proof fn lemma_key_less_irreflexive(a: Seq<char>)
    ensures
        !key_less(a, a),
    decreases a.len(),
{
    if a.len() > 0 {
        lemma_key_less_irreflexive(a.drop_first());
    }
}

/// The entries, ordered by key, with `x` put in its place; an entry with
/// the same key is replaced.
fn insert_pair(sorted: Vec<(String, String)>, x: (String, String)) -> (r: Vec<(String, String)>)
    ensures
        pair_texts(r@) == insert_entry(pair_texts(sorted@), (x.0@, x.1@)),
{
    let ghost s = pair_texts(sorted@);
    let ghost xv = (x.0@, x.1@);
    let mut out: Vec<(String, String)> = Vec::new();
    let mut j: usize = 0;
    assert(pair_texts(out@) =~= s.take(0));
    while j < sorted.len()
        invariant
            s == pair_texts(sorted@),
            xv == (x.0@, x.1@),
            j <= sorted@.len(),
            pair_texts(out@) == s.take(j as int),
            forall|k: int| 0 <= k < j ==> !key_less(xv.0, #[trigger] s[k].0) && xv.0 != s[k].0,
        ensures
            j <= sorted@.len(),
            pair_texts(out@) == s.take(j as int),
            forall|k: int| 0 <= k < j ==> !key_less(xv.0, #[trigger] s[k].0) && xv.0 != s[k].0,
            j < sorted@.len() ==> key_less(xv.0, s[j as int].0) || xv.0 == s[j as int].0,
        decreases sorted@.len() - j,
    {
        let before = key_before(x.0.as_str(), sorted[j].0.as_str());
        let same = str_equal(x.0.as_str(), sorted[j].0.as_str());
        if before || same {
            break;
        }
        let ghost old_out = out@;
        out.push((sorted[j].0.clone(), sorted[j].1.clone()));
        assert(pair_texts(out@) =~= pair_texts(old_out).push(s[j as int]));
        assert(s.take(j + 1) =~= s.take(j as int).push(s[j as int]));
        j = j + 1;
    }
    let ghost jj = j as int;
    let replace = j < sorted.len() && str_equal(x.0.as_str(), sorted[j].0.as_str());
    proof {
        lemma_insert_at(s, xv, jj);
    }
    let ghost old_out = out@;
    out.push(x);
    assert(pair_texts(out@) =~= pair_texts(old_out).push(xv));
    let mut k: usize = if replace { j + 1 } else { j };
    let ghost start = k as int;
    assert(s.len() == sorted@.len());
    assert(pair_texts(out@) =~= s.take(jj) + seq![xv] + s.subrange(start, start));
    while k < sorted.len()
        invariant
            s == pair_texts(sorted@),
            s.len() == sorted@.len(),
            0 <= start <= k <= sorted@.len(),
            pair_texts(out@) == s.take(jj) + seq![xv] + s.subrange(start, k as int),
        decreases sorted@.len() - k,
    {
        let ghost old_out = out@;
        out.push((sorted[k].0.clone(), sorted[k].1.clone()));
        assert(pair_texts(out@) =~= pair_texts(old_out).push(s[k as int]));
        assert(s.take(jj) + seq![xv] + s.subrange(start, k + 1) =~= (s.take(jj) + seq![xv] + s.subrange(start, k as int)).push(s[k as int]));
        k = k + 1;
    }
    assert(s.subrange(start, sorted@.len() as int) =~= s.skip(start));
    out
}

/// The entries ordered by key, the last given of each key kept.
pub fn sort_pairs(entries: &Vec<(String, String)>) -> (r: Vec<(String, String)>)
    ensures
        pair_texts(r@) == sort_entries(pair_texts(entries@)),
{
    let ghost e = pair_texts(entries@);
    let mut sorted: Vec<(String, String)> = Vec::new();
    let mut i: usize = 0;
    while i < entries.len()
        invariant
            e == pair_texts(entries@),
            i <= entries@.len(),
            pair_texts(sorted@) == sort_entries(e.take(i as int)),
        decreases entries@.len() - i,
    {
        assert(e.take(i + 1).drop_last() =~= e.take(i as int));
        sorted = insert_pair(sorted, (entries[i].0.clone(), entries[i].1.clone()));
        i = i + 1;
    }
    assert(e.take(entries@.len() as int) =~= e);
    sorted
}

/// The texts of map entries: the quoted key, `: `, the value's text.
pub fn entry_strings(entries: &Vec<(String, String)>) -> (r: Vec<String>)
    ensures
        texts_of(r@) == entry_texts(pair_texts(entries@)),
{
    let mut out: Vec<String> = Vec::new();
    let mut i: usize = 0;
    while i < entries.len()
        invariant
            i <= entries@.len(),
            texts_of(out@) == entry_texts(pair_texts(entries@)).take(i as int),
        decreases entries@.len() - i,
    {
        let mut s = debug_quoted(entries[i].0.as_str());
        s.append(": ");
        s.append(entries[i].1.as_str());
        let ghost old_out = out@;
        out.push(s);
        let ghost e = entry_texts(pair_texts(entries@));
        assert(e[i as int] == entry_text((entries@[i as int].0@, entries@[i as int].1@)));
        assert(texts_of(out@) =~= texts_of(old_out).push(e[i as int]));
        assert(e.take(i + 1) =~= e.take(i as int).push(e[i as int]));
        i = i + 1;
    }
    assert(entry_texts(pair_texts(entries@)).take(entries@.len() as int) =~= entry_texts(pair_texts(entries@)));
    out
}

/// What `serde_json::Value`'s `Debug` writes for a JSON value.
pub open spec fn json_debug(j: Json) -> Seq<char>
    decreases j, 1int,
{
    match j {
        Json::Null => "Null"@,
        Json::Bool(b) => if b { "Bool(true)"@ } else { "Bool(false)"@ },
        Json::Number(n) => "Number("@ + number_text(n) + ")"@,
        Json::Str(s) => "String("@ + quoted_text(s) + ")"@,
        Json::Array(items) => "Array ["@ + joined(items_debug(items)) + "]"@,
        Json::Object(m) => "Object {"@ + joined(entry_texts(sort_entries(members_debug(m)))) + "}"@,
    }
}

/// The texts of the items, in order.
pub open spec fn items_debug(items: Seq<Json>) -> Seq<Seq<char>>
    decreases items, 0int,
{
    if items.len() == 0 {
        Seq::empty()
    } else {
        items_debug(items.drop_last()).push(json_debug(items.last()))
    }
}

/// The keys of the members with the texts of their values, in order.
pub open spec fn members_debug(m: Seq<(Seq<char>, Json)>) -> Seq<(Seq<char>, Seq<char>)>
    decreases m, 0int,
{
    if m.len() == 0 {
        Seq::empty()
    } else {
        members_debug(m.drop_last()).push((m.last().0, json_debug(m.last().1)))
    }
}

/// What `serde_json::Value`'s `Debug` writes for the value.
pub fn json_debug_string(v: &JsonValue) -> (r: String)
    ensures
        r@ == json_debug(v@),
    decreases v,
{
    match v {
        JsonValue::Null => String::from_str("Null"),
        JsonValue::Bool(b) => if *b { String::from_str("Bool(true)") } else { String::from_str("Bool(false)") },
        JsonValue::Number(n) => {
            let mut s = String::from_str("Number(");
            let t = number_string(*n);
            s.append(t.as_str());
            s.append(")");
            s
        },
        JsonValue::String(text) => {
            let mut s = String::from_str("String(");
            let t = debug_quoted(text.as_str());
            s.append(t.as_str());
            s.append(")");
            s
        },
        JsonValue::Array(items) => {
            let ghost js = json_of_items(items@);
            proof {
                lemma_json_of_items(items@);
            }
            let mut parts: Vec<String> = Vec::new();
            let mut i: usize = 0;
            while i < items.len()
                invariant
                    *v == JsonValue::Array(*items),
                    js == json_of_items(items@),
                    js.len() == items@.len(),
                    forall|k: int| 0 <= k < items@.len() ==> #[trigger] js[k] == json_of(items@[k]),
                    i <= items@.len(),
                    texts_of(parts@) == items_debug(js.take(i as int)),
                decreases items@.len() - i,
            {
                assert(decreases_to!(*v => v->Array_0));
                assert(decreases_to!(v->Array_0 => v->Array_0@));
                assert(decreases_to!(v->Array_0@ => v->Array_0@[i as int]));
                let t = json_debug_string(&items[i]);
                let ghost old_parts = parts@;
                parts.push(t);
                proof {
                    assert(js.take(i + 1).drop_last() =~= js.take(i as int));
                    assert(js.take(i + 1).last() == js[i as int]);
                    assert(texts_of(parts@) =~= texts_of(old_parts).push(t@));
                }
                i = i + 1;
            }
            assert(js.take(items@.len() as int) =~= js);
            let mut s = String::from_str("Array [");
            let t = join_parts(&parts);
            s.append(t.as_str());
            s.append("]");
            s
        },
        JsonValue::Object(members) => {
            let ghost jm = json_of_members(members@);
            proof {
                lemma_json_of_members(members@);
            }
            let mut entries: Vec<(String, String)> = Vec::new();
            let mut i: usize = 0;
            while i < members.len()
                invariant
                    *v == JsonValue::Object(*members),
                    jm == json_of_members(members@),
                    jm.len() == members@.len(),
                    forall|k: int| 0 <= k < members@.len() ==> #[trigger] jm[k] == (members@[k].0@, json_of(members@[k].1)),
                    i <= members@.len(),
                    pair_texts(entries@) == members_debug(jm.take(i as int)),
                decreases members@.len() - i,
            {
                assert(decreases_to!(*v => v->Object_0));
                assert(decreases_to!(v->Object_0 => v->Object_0@));
                assert(decreases_to!(v->Object_0@ => v->Object_0@[i as int]));
                assert(decreases_to!(v->Object_0@[i as int] => v->Object_0@[i as int].1));
                let t = json_debug_string(&members[i].1);
                let key = members[i].0.clone();
                let ghost old_entries = entries@;
                entries.push((key, t));
                proof {
                    assert(jm.take(i + 1).drop_last() =~= jm.take(i as int));
                    assert(jm.take(i + 1).last() == jm[i as int]);
                    assert(pair_texts(entries@) =~= pair_texts(old_entries).push((key@, t@)));
                }
                i = i + 1;
            }
            assert(jm.take(members@.len() as int) =~= jm);
            let sorted = sort_pairs(&entries);
            let texts = entry_strings(&sorted);
            let mut s = String::from_str("Object {");
            let t = join_parts(&texts);
            s.append(t.as_str());
            s.append("}");
            s
        },
    }
}

/// How an optional text is written: `None`, or `Some` of the quoted text.
pub open spec fn option_text(o: Option<Seq<char>>) -> Seq<char> {
    match o {
        None => "None"@,
        Some(s) => "Some("@ + quoted_text(s) + ")"@,
    }
}

/// What `derive(Debug)` writes for an [`ErrorDefinition`], its JSON fields
/// written as `serde_json` writes them.
pub open spec fn error_debug_text(e: ErrorView) -> Seq<char> {
    "ErrorDefinition { description: "@ + quoted_text(e.description) + ", location: "@ + option_text(e.location)
        + ", value: "@ + json_debug(e.value) + ", reason: "@ + json_debug(e.reason) + " }"@
}

/// What `derive(Debug)` writes for a [`DbServiceError`].
pub open spec fn service_error_debug_text(e: DbServiceError) -> Seq<char> {
    match e {
        DbServiceError::NotFound => "NotFound"@,
        DbServiceError::QueryError(t) => "QueryError("@ + quoted_text(t@) + ")"@,
    }
}

/// What `derive(Debug)` writes for a [`DbRepoError`].
pub open spec fn repo_error_debug_text(e: DbRepoError) -> Seq<char> {
    match e {
        DbRepoError::NotFound => "NotFound"@,
        DbRepoError::QueryError(t) => "QueryError("@ + quoted_text(t@) + ")"@,
    }
}

/// The `Debug` text of an [`ErrorDefinition`].
pub fn error_debug_string(e: &ErrorDefinition) -> (r: String)
    ensures
        r@ == error_debug_text(e@),
{
    let mut s = String::from_str("ErrorDefinition { description: ");
    let t = debug_quoted(e.description.as_str());
    s.append(t.as_str());
    s.append(", location: ");
    match &e.location {
        None => s.append("None"),
        Some(l) => {
            s.append("Some(");
            let q = debug_quoted(l.as_str());
            s.append(q.as_str());
            s.append(")");
        },
    }
    s.append(", value: ");
    let v = json_debug_string(&e.value);
    s.append(v.as_str());
    s.append(", reason: ");
    let r = json_debug_string(&e.reason);
    s.append(r.as_str());
    s.append(" }");
    s
}

/// The `Debug` text of a [`DbServiceError`].
pub fn service_error_debug_string(e: &DbServiceError) -> (r: String)
    ensures
        r@ == service_error_debug_text(*e),
{
    match e {
        DbServiceError::NotFound => String::from_str("NotFound"),
        DbServiceError::QueryError(t) => {
            let mut s = String::from_str("QueryError(");
            let q = debug_quoted(t.as_str());
            s.append(q.as_str());
            s.append(")");
            s
        },
    }
}

/// The `Debug` text of a [`DbRepoError`].
pub fn repo_error_debug_string(e: &DbRepoError) -> (r: String)
    ensures
        r@ == repo_error_debug_text(*e),
{
    match e {
        DbRepoError::NotFound => String::from_str("NotFound"),
        DbRepoError::QueryError(t) => {
            let mut s = String::from_str("QueryError(");
            let q = debug_quoted(t.as_str());
            s.append(q.as_str());
            s.append(")");
            s
        },
    }
}

} // verus!
