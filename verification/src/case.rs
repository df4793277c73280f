use vstd::prelude::*;
use crate::ascii::{ascii_lower, ascii_upper, is_ascii_digit, is_ascii_lower, is_ascii_upper, to_ascii_lower, to_ascii_upper};
use crate::text::{chars_of, string_of};
use crate::json::{JsonModel, JsonValue, model_of, models_of, entry_models_of};

verus! {

/// Whether the upper-case letter at `i` in `s` starts a new word of the
/// snake-case name: it follows a lower-case letter or a digit, or it ends an
/// acronym (an upper-case letter before it and a lower-case letter after it).
pub open spec fn starts_snake_word(s: Seq<char>, i: int) -> bool {
    &&& 0 < i
    &&& (is_ascii_lower(s[i - 1]) || is_ascii_digit(s[i - 1])) || (is_ascii_upper(s[i - 1])
        && i + 1 < s.len() && is_ascii_lower(s[i + 1]))
}

/// What the character at `i` of a camel-case name becomes in its snake-case form.
pub open spec fn snake_piece(s: Seq<char>, i: int) -> Seq<char> {
    if is_ascii_upper(s[i]) {
        if starts_snake_word(s, i) {
            seq!['_', ascii_lower(s[i])]
        } else {
            seq![ascii_lower(s[i])]
        }
    } else {
        seq![s[i]]
    }
}

/// The snake-case form of the first `n` characters of `s`.
pub open spec fn snake_prefix(s: Seq<char>, n: nat) -> Seq<char>
    decreases n,
{
    if n == 0 {
        Seq::empty()
    } else {
        snake_prefix(s, (n - 1) as nat) + snake_piece(s, n - 1)
    }
}

/// The snake-case form of a camel-case name.
pub open spec fn spec_camel_to_snake(s: Seq<char>) -> Seq<char> {
    snake_prefix(s, s.len())
}

/// What the character at `i` of a snake-case name becomes in its camel-case
/// form: underscores vanish and a character right after one is upper-cased.
pub open spec fn camel_piece(s: Seq<char>, i: int) -> Seq<char> {
    if s[i] == '_' {
        Seq::empty()
    } else if i > 0 && s[i - 1] == '_' {
        seq![ascii_upper(s[i])]
    } else {
        seq![s[i]]
    }
}

/// The camel-case form of the first `n` characters of `s`.
pub open spec fn camel_prefix(s: Seq<char>, n: nat) -> Seq<char>
    decreases n,
{
    if n == 0 {
        Seq::empty()
    } else {
        camel_prefix(s, (n - 1) as nat) + camel_piece(s, n - 1)
    }
}

/// The camel-case form of a snake-case name.
pub open spec fn spec_snake_to_camel(s: Seq<char>) -> Seq<char> {
    camel_prefix(s, s.len())
}

proof fn lemma_snake_prefix_empty(s: Seq<char>, n: nat)
    requires
        n <= s.len(),
    ensures
        (snake_prefix(s, n).len() == 0) <==> (n == 0),
    decreases n,
{
    if n > 0 {
        lemma_snake_prefix_empty(s, (n - 1) as nat);
    }
}

/// Converts a camelCase (or PascalCase) name into snake_case.
pub fn camel_to_snake(input: &str) -> (output: String)
    ensures
        output@ == spec_camel_to_snake(input@),
{
    let chars = chars_of(input);
    let mut out: Vec<char> = Vec::new();
    let mut index: usize = 0;
    while index < chars.len()
        invariant
            chars@ == input@,
            index <= chars.len(),
            out@ == snake_prefix(chars@, index as nat),
        decreases chars.len() - index,
    {
        let ch = chars[index];
        if 'A' <= ch && ch <= 'Z' {
            let previous_needs_separator = index > 0 && (('a' <= chars[index - 1] && chars[index
                - 1] <= 'z') || ('0' <= chars[index - 1] && chars[index - 1] <= '9'));
            let acronym_boundary = index > 0 && ('A' <= chars[index - 1] && chars[index - 1]
                <= 'Z') && index + 1 < chars.len() && ('a' <= chars[index + 1] && chars[index + 1]
                <= 'z');
            proof {
                lemma_snake_prefix_empty(chars@, index as nat);
            }
            if out.len() != 0 && (previous_needs_separator || acronym_boundary) {
                out.push('_');
            }
            out.push(to_ascii_lower(ch));
        } else {
            out.push(ch);
        }
        index += 1;
    }
    string_of(&out)
}

/// Converts a snake_case name into camelCase.
pub fn snake_to_camel(input: &str) -> (output: String)
    ensures
        output@ == spec_snake_to_camel(input@),
{
    let chars = chars_of(input);
    let mut out: Vec<char> = Vec::new();
    let mut uppercase_next = false;
    let mut index: usize = 0;
    while index < chars.len()
        invariant
            chars@ == input@,
            index <= chars.len(),
            out@ == camel_prefix(chars@, index as nat),
            uppercase_next == (index > 0 && chars@[index - 1] == '_'),
        decreases chars.len() - index,
    {
        let ch = chars[index];
        if ch == '_' {
            uppercase_next = true;
        } else if uppercase_next {
            out.push(to_ascii_upper(ch));
            uppercase_next = false;
        } else {
            out.push(ch);
        }
        index += 1;
    }
    string_of(&out)
}

} // verus!

verus! {

/// Which naming convention object keys are converted to.
#[derive(Clone, Copy, PartialEq, Eq, Debug)]
pub enum KeyCase {
    /// snake_case keys, as Rust field names are written.
    Snake,
    /// camelCase keys, as JSON-RPC payloads are written.
    Camel,
}

/// The key `key` in the convention `case`.
pub open spec fn convert_key(case: KeyCase, key: Seq<char>) -> Seq<char> {
    match case {
        KeyCase::Snake => spec_camel_to_snake(key),
        KeyCase::Camel => spec_snake_to_camel(key),
    }
}

/// `value` with every object key, at any depth, converted to `case`; every
/// other part of the value is kept as it is.
pub open spec fn spec_map_keys(value: JsonModel, case: KeyCase) -> JsonModel
    decreases value, 1int,
{
    match value {
        JsonModel::Array(items) => JsonModel::Array(spec_map_keys_items(items, case)),
        JsonModel::Object(entries) => JsonModel::Object(spec_map_keys_entries(entries, case)),
        other => other,
    }
}

/// `spec_map_keys` applied to each item.
pub open spec fn spec_map_keys_items(items: Seq<JsonModel>, case: KeyCase) -> Seq<JsonModel>
    decreases items, 0int,
{
    if items.len() == 0 {
        Seq::empty()
    } else {
        spec_map_keys_items(items.drop_last(), case).push(spec_map_keys(items.last(), case))
    }
}

/// Each entry with its key converted and its value mapped by `spec_map_keys`.
pub open spec fn spec_map_keys_entries(
    entries: Seq<(Seq<char>, JsonModel)>,
    case: KeyCase,
) -> Seq<(Seq<char>, JsonModel)>
    decreases entries, 0int,
{
    if entries.len() == 0 {
        Seq::empty()
    } else {
        spec_map_keys_entries(entries.drop_last(), case).push(
            (convert_key(case, entries.last().0), spec_map_keys(entries.last().1, case)),
        )
    }
}

fn convert(case: KeyCase, key: &str) -> (converted: String)
    ensures
        converted@ == convert_key(case, key@),
{
    match case {
        KeyCase::Snake => camel_to_snake(key),
        KeyCase::Camel => snake_to_camel(key),
    }
}

/// Converts every object key of `value`, at any depth, to `case`.
pub fn map_object_keys(value: JsonValue, case: KeyCase) -> (mapped: JsonValue)
    ensures
        model_of(mapped) == spec_map_keys(model_of(value), case),
    decreases value,
{
    let ghost whole = value;
    match value {
        JsonValue::Array(items) => {
            let ghost item_views = items@;
            let ghost items_ghost = items;
            let mut out: Vec<JsonValue> = Vec::new();
            for item in it: items.into_iter()
                invariant
                    whole == JsonValue::Array(items_ghost),
                    whole == value,
                    items_ghost@ == item_views,
                    it.seq() == item_views,
                    models_of(out@) == spec_map_keys_items(models_of(item_views.take(it.index() as int)), case),
            {
                let ghost k = it.index();
                assert(item == item_views[k as int]);
                assert(whole is Array);
                assert(decreases_to!(whole => whole->Array_0));
                assert(decreases_to!(items_ghost => items_ghost[k as int]));
                assert(decreases_to!(whole => item));
                let mapped_item = map_object_keys(item, case);
                let ghost before = out@;
                out.push(mapped_item);
                assert(out@.drop_last() == before);
                assert(item_views.take(k + 1).drop_last() == item_views.take(k as int));
                assert(models_of(out@) == models_of(before).push(model_of(mapped_item)));
                let ghost t = item_views.take(k + 1);
                assert(t.last() == item);
                assert(models_of(t) == models_of(item_views.take(k as int)).push(model_of(item)));
                assert(models_of(t).drop_last() == models_of(item_views.take(k as int)));
            }
            assert(item_views.take(item_views.len() as int) == item_views);
            JsonValue::Array(out)
        },
        JsonValue::Object(entries) => {
            let ghost entry_views = entries@;
            let ghost entries_ghost = entries;
            let mut out: Vec<(String, JsonValue)> = Vec::new();
            for entry in it: entries.into_iter()
                invariant
                    whole == JsonValue::Object(entries_ghost),
                    whole == value,
                    entries_ghost@ == entry_views,
                    it.seq() == entry_views,
                    entry_models_of(out@) == spec_map_keys_entries(entry_models_of(entry_views.take(it.index() as int)), case),
            {
                let ghost k = it.index();
                assert(entry == entry_views[k as int]);
                let (key, item) = entry;
                assert(decreases_to!(whole => whole->Object_0));
                assert(decreases_to!(entries_ghost => entries_ghost[k as int]));
                assert(decreases_to!(entries_ghost[k as int] => entries_ghost[k as int].1));
                assert(decreases_to!(whole => item));
                let new_key = convert(case, key.as_str());
                let mapped_item = map_object_keys(item, case);
                let ghost before = out@;
                out.push((new_key, mapped_item));
                assert(out@.drop_last() == before);
                assert(entry_views.take(k + 1).drop_last() == entry_views.take(k as int));
                let ghost t = entry_views.take(k + 1);
                assert(t.last() == entry);
                assert(entry_models_of(t) == entry_models_of(entry_views.take(k as int)).push((key@, model_of(item))));
                assert(entry_models_of(t).drop_last() == entry_models_of(entry_views.take(k as int)));
                assert(entry_models_of(out@) == entry_models_of(before).push((new_key@, model_of(mapped_item))));
            }
            assert(entry_views.take(entry_views.len() as int) == entry_views);
            JsonValue::Object(out)
        },
        other => other,
    }
}

/// Converts the object keys of request parameters from camelCase to snake_case.
pub fn params_to_rust_case(value: JsonValue) -> (converted: JsonValue)
    ensures
        model_of(converted) == spec_map_keys(model_of(value), KeyCase::Snake),
{
    map_object_keys(value, KeyCase::Snake)
}

/// Converts the object keys of an output or error payload from snake_case to camelCase.
pub fn value_to_json_case(value: JsonValue) -> (converted: JsonValue)
    ensures
        model_of(converted) == spec_map_keys(model_of(value), KeyCase::Camel),
{
    map_object_keys(value, KeyCase::Camel)
}

} // verus!

verus! {

/// A snake_case name that camelCase conversion loses nothing of: no ASCII
/// upper-case letter, and each underscore stands between an ASCII lower-case
/// letter or digit that does not itself follow an underscore, and an ASCII
/// lower-case letter.
pub open spec fn is_plain_snake_name(s: Seq<char>) -> bool {
    &&& forall|i: int| 0 <= i < s.len() ==> !is_ascii_upper(#[trigger] s[i])
    &&& forall|i: int|
        0 <= i < s.len() && #[trigger] s[i] == '_' ==> {
            &&& 1 <= i
            &&& i + 1 < s.len()
            &&& (is_ascii_lower(s[i - 1]) || is_ascii_digit(s[i - 1]))
            &&& (i < 2 || s[i - 2] != '_')
            &&& is_ascii_lower(s[i + 1])
        }
}

proof fn lemma_ascii_case_roundtrip(c: char)
    ensures
        is_ascii_lower(c) ==> is_ascii_upper(ascii_upper(c)) && ascii_lower(ascii_upper(c)) == c,
        is_ascii_upper(c) ==> is_ascii_lower(ascii_lower(c)) && ascii_upper(ascii_lower(c)) == c,
{
}

proof fn lemma_camel_prefix_grows(s: Seq<char>, n: nat, m: nat)
    requires
        n <= m <= s.len(),
    ensures
        camel_prefix(s, n).len() <= camel_prefix(s, m).len(),
        camel_prefix(s, m).take(camel_prefix(s, n).len() as int) == camel_prefix(s, n),
    decreases m,
{
    if n < m {
        lemma_camel_prefix_grows(s, n, (m - 1) as nat);
        let a = camel_prefix(s, n);
        let b = camel_prefix(s, (m - 1) as nat);
        assert((b + camel_piece(s, m - 1)).take(a.len() as int) == b.take(a.len() as int));
    }
}

proof fn lemma_snake_of_camel_prefix(s: Seq<char>, n: nat)
    requires
        is_plain_snake_name(s),
        n <= s.len(),
    ensures
        (n == 0 || s[n - 1] != '_') ==> snake_prefix(spec_snake_to_camel(s), camel_prefix(s, n).len())
            == s.take(n as int),
        (n > 0 && s[n - 1] == '_') ==> camel_prefix(s, n) == camel_prefix(s, (n - 1) as nat)
            && snake_prefix(spec_snake_to_camel(s), camel_prefix(s, n).len()) == s.take(n - 1),
        n > 0 && s[n - 1] != '_' ==> camel_prefix(s, n).len() > 0 && camel_prefix(s, n).last()
            == camel_piece(s, n - 1).last(),
    decreases n,
{
    let t = spec_snake_to_camel(s);
    if n == 0 {
        return;
    }
    lemma_snake_of_camel_prefix(s, (n - 1) as nat);
    lemma_camel_prefix_grows(s, n, s.len());
    lemma_camel_prefix_grows(s, (n - 1) as nat, n);
    let prev = camel_prefix(s, (n - 1) as nat);
    let cur = camel_prefix(s, n);
    let j = prev.len();
    let c = s[n - 1];
    if c == '_' {
        assert(s[n - 2] != '_');
        assert(cur == prev);
    } else if n >= 2 && s[n - 2] == '_' {
        // An upper-case letter after a lower-case letter or digit in camel form.
        lemma_ascii_case_roundtrip(c);
        assert(is_ascii_lower(c));
        let k = n - 2;
        assert(s[k] == '_');
        assert(1 <= k);
        assert(k < 2 || s[k - 2] != '_');
        lemma_snake_of_camel_prefix(s, (n - 2) as nat);
        assert(camel_prefix(s, (n - 2) as nat).len() > 0);
        assert(prev == camel_prefix(s, (n - 2) as nat));
        assert(prev.last() == camel_piece(s, n - 3).last());
        assert(camel_piece(s, n - 3) == seq![s[n - 3]]);
        assert(cur == prev.push(ascii_upper(c)));
        assert(t.take(cur.len() as int) == cur);
        assert(cur[j as int] == ascii_upper(c));
        assert(t.take(cur.len() as int)[j as int] == t[j as int]);
        assert(t.take(cur.len() as int)[j - 1] == t[j - 1]);
        assert(cur[j - 1] == prev.last());
        assert(t[j as int] == ascii_upper(c));
        assert(t[j - 1] == s[n - 3]);
        assert(is_ascii_lower(s[n - 3]) || is_ascii_digit(s[n - 3]));
        assert(snake_piece(t, j as int) == seq!['_', c]);
        assert(s.take(n - 2) + seq!['_', c] =~= s.take(n as int));
    } else {
        assert(cur == prev.push(c));
        assert(t.take(cur.len() as int) == cur);
        assert(cur[j as int] == c);
        assert(t.take(cur.len() as int)[j as int] == t[j as int]);
        assert(t[j as int] == c);
        assert(!is_ascii_upper(c));
        assert(snake_piece(t, j as int) == seq![c]);
        assert(s.take(n - 1).push(c) =~= s.take(n as int));
    }
}

/// For a plain snake_case name, converting to camelCase and back gives the
/// name again.
pub proof fn snake_camel_snake_roundtrip(s: Seq<char>)
    requires
        is_plain_snake_name(s),
    ensures
        spec_camel_to_snake(spec_snake_to_camel(s)) == s,
{
    lemma_snake_of_camel_prefix(s, s.len());
    if s.len() > 0 {
        assert(s[s.len() - 1] != '_');
    }
    assert(s.take(s.len() as int) == s);
}

} // verus!

verus! {

/// A camelCase name that snake_case conversion loses nothing of: no
/// underscore, and each ASCII upper-case letter follows an ASCII lower-case
/// letter or digit.
pub open spec fn is_plain_camel_name(s: Seq<char>) -> bool {
    &&& forall|i: int| 0 <= i < s.len() ==> #[trigger] s[i] != '_'
    &&& forall|i: int|
        0 <= i < s.len() && is_ascii_upper(#[trigger] s[i]) ==> 1 <= i && (is_ascii_lower(s[i - 1])
            || is_ascii_digit(s[i - 1]))
}

proof fn lemma_snake_prefix_grows(s: Seq<char>, n: nat, m: nat)
    requires
        n <= m <= s.len(),
    ensures
        snake_prefix(s, n).len() <= snake_prefix(s, m).len(),
        snake_prefix(s, m).take(snake_prefix(s, n).len() as int) == snake_prefix(s, n),
    decreases m,
{
    if n < m {
        lemma_snake_prefix_grows(s, n, (m - 1) as nat);
        let a = snake_prefix(s, n);
        let b = snake_prefix(s, (m - 1) as nat);
        assert((b + snake_piece(s, m - 1)).take(a.len() as int) == b.take(a.len() as int));
    }
}

proof fn lemma_camel_of_snake_prefix(s: Seq<char>, n: nat)
    requires
        is_plain_camel_name(s),
        n <= s.len(),
    ensures
        camel_prefix(spec_camel_to_snake(s), snake_prefix(s, n).len()) == s.take(n as int),
        n > 0 ==> snake_prefix(s, n).len() > 0 && snake_prefix(s, n).last() != '_',
    decreases n,
{
    if n == 0 {
        return;
    }
    let u = spec_camel_to_snake(s);
    lemma_camel_of_snake_prefix(s, (n - 1) as nat);
    lemma_snake_prefix_grows(s, n, s.len());
    let prev = snake_prefix(s, (n - 1) as nat);
    let cur = snake_prefix(s, n);
    let j = prev.len();
    let c = s[n - 1];
    assert(u.take(cur.len() as int) == cur);
    if is_ascii_upper(c) {
        lemma_ascii_case_roundtrip(c);
        assert(starts_snake_word(s, n - 1));
        assert(cur == prev + seq!['_', ascii_lower(c)]);
        assert(cur[j as int] == '_');
        assert(cur[j as int + 1] == ascii_lower(c));
        assert(u.take(cur.len() as int)[j as int] == u[j as int]);
        assert(u.take(cur.len() as int)[j as int + 1] == u[j as int + 1]);
        assert(camel_piece(u, j as int) == Seq::<char>::empty());
        assert(camel_piece(u, j as int + 1) == seq![c]);
        assert(camel_prefix(u, (j + 1) as nat) == camel_prefix(u, j as nat) + Seq::<char>::empty());
        assert(camel_prefix(u, (j + 2) as nat) == camel_prefix(u, (j + 1) as nat) + seq![c]);
        assert(cur.len() == j + 2);
        assert(s.take(n - 1) + Seq::<char>::empty() + seq![c] =~= s.take(n as int));
    } else {
        assert(cur == prev.push(c));
        assert(cur[j as int] == c);
        assert(u.take(cur.len() as int)[j as int] == u[j as int]);
        if j > 0 {
            assert(cur[j - 1] == prev.last());
            assert(u.take(cur.len() as int)[j - 1] == u[j - 1]);
        }
        assert(camel_piece(u, j as int) == seq![c]);
        assert(s.take(n - 1).push(c) =~= s.take(n as int));
    }
}

/// For a plain camelCase name, converting to snake_case and back gives the
/// name again.
pub proof fn camel_snake_camel_roundtrip(s: Seq<char>)
    requires
        is_plain_camel_name(s),
    ensures
        spec_snake_to_camel(spec_camel_to_snake(s)) == s,
{
    lemma_camel_of_snake_prefix(s, s.len());
    assert(s.take(s.len() as int) == s);
}

} // verus!

verus! {

/// The other naming convention.
pub open spec fn opposite(case: KeyCase) -> KeyCase {
    match case {
        KeyCase::Snake => KeyCase::Camel,
        KeyCase::Camel => KeyCase::Snake,
    }
}

/// `key` is a plain name in the convention `case`.
pub open spec fn is_plain_key(case: KeyCase, key: Seq<char>) -> bool {
    match case {
        KeyCase::Snake => is_plain_snake_name(key),
        KeyCase::Camel => is_plain_camel_name(key),
    }
}

/// Every object key of `value`, at any depth, is a plain name in `case`.
pub open spec fn keys_are_plain(value: JsonModel, case: KeyCase) -> bool
    decreases value, 1int,
{
    match value {
        JsonModel::Array(items) => items_keys_are_plain(items, case),
        JsonModel::Object(entries) => entries_keys_are_plain(entries, case),
        _ => true,
    }
}

/// `keys_are_plain` of each item.
pub open spec fn items_keys_are_plain(items: Seq<JsonModel>, case: KeyCase) -> bool
    decreases items, 0int,
{
    items.len() == 0 || (items_keys_are_plain(items.drop_last(), case) && keys_are_plain(
        items.last(),
        case,
    ))
}

/// Each key is plain in `case`, and so is every key inside each value.
pub open spec fn entries_keys_are_plain(entries: Seq<(Seq<char>, JsonModel)>, case: KeyCase) -> bool
    decreases entries, 0int,
{
    entries.len() == 0 || (entries_keys_are_plain(entries.drop_last(), case) && is_plain_key(
        case,
        entries.last().0,
    ) && keys_are_plain(entries.last().1, case))
}

proof fn lemma_key_roundtrip(case: KeyCase, key: Seq<char>)
    requires
        is_plain_key(case, key),
    ensures
        convert_key(case, convert_key(opposite(case), key)) == key,
{
    match case {
        KeyCase::Snake => snake_camel_snake_roundtrip(key),
        KeyCase::Camel => camel_snake_camel_roundtrip(key),
    }
}

/// Converting the keys of a value whose keys are all plain in `case` to the
/// other convention and back gives the value again: a request written in
/// camelCase survives the trip to Rust's snake_case and back.
pub proof fn map_keys_roundtrip(value: JsonModel, case: KeyCase)
    requires
        keys_are_plain(value, case),
    ensures
        spec_map_keys(spec_map_keys(value, opposite(case)), case) == value,
    decreases value, 1int,
{
    match value {
        JsonModel::Array(items) => {
            map_keys_items_roundtrip(items, case);
        },
        JsonModel::Object(entries) => {
            map_keys_entries_roundtrip(entries, case);
        },
        _ => {},
    }
}

proof fn map_keys_items_roundtrip(items: Seq<JsonModel>, case: KeyCase)
    requires
        items_keys_are_plain(items, case),
    ensures
        spec_map_keys_items(spec_map_keys_items(items, opposite(case)), case) == items,
    decreases items, 0int,
{
    if items.len() > 0 {
        map_keys_items_roundtrip(items.drop_last(), case);
        map_keys_roundtrip(items.last(), case);
        let once = spec_map_keys_items(items, opposite(case));
        assert(once.drop_last() == spec_map_keys_items(items.drop_last(), opposite(case)));
        assert(items.drop_last().push(items.last()) == items);
    }
}

proof fn map_keys_entries_roundtrip(entries: Seq<(Seq<char>, JsonModel)>, case: KeyCase)
    requires
        entries_keys_are_plain(entries, case),
    ensures
        spec_map_keys_entries(spec_map_keys_entries(entries, opposite(case)), case) == entries,
    decreases entries, 0int,
{
    if entries.len() > 0 {
        map_keys_entries_roundtrip(entries.drop_last(), case);
        map_keys_roundtrip(entries.last().1, case);
        lemma_key_roundtrip(case, entries.last().0);
        let once = spec_map_keys_entries(entries, opposite(case));
        assert(once.drop_last() == spec_map_keys_entries(entries.drop_last(), opposite(case)));
        assert(entries.drop_last().push(entries.last()) == entries);
    }
}


/// How many underscores `s` holds.
pub open spec fn underscore_count(s: Seq<char>) -> nat
    decreases s.len(),
{
    if s.len() == 0 {
        0
    } else {
        underscore_count(s.drop_last()) + if s.last() == '_' { 1nat } else { 0nat }
    }
}

proof fn lemma_ascii_upper_is_no_underscore(c: char)
    requires
        c != '_',
    ensures
        ascii_upper(c) != '_',
{
    if is_ascii_lower(c) {
        assert(65 <= (c as u32) - 32 <= 90);
    }
}

proof fn lemma_camel_prefix_drops_underscores(s: Seq<char>, n: nat)
    requires
        n <= s.len(),
    ensures
        !camel_prefix(s, n).contains('_'),
        camel_prefix(s, n).len() + underscore_count(s.take(n as int)) == n,
    decreases n,
{
    if n > 0 {
        lemma_camel_prefix_drops_underscores(s, (n - 1) as nat);
        assert(s.take(n as int).drop_last() == s.take(n - 1));
        assert(s.take(n as int).last() == s[n - 1]);
        let before = camel_prefix(s, (n - 1) as nat);
        let piece = camel_piece(s, n - 1);
        if s[n - 1] != '_' {
            lemma_ascii_upper_is_no_underscore(s[n - 1]);
        }
        assert(!piece.contains('_'));
        assert forall|i: int| 0 <= i < before.len() + piece.len() implies (before + piece)[i] != '_' by {
            if i < before.len() {
                assert((before + piece)[i] == before[i]);
            } else {
                assert((before + piece)[i] == piece[i - before.len()]);
            }
        }
    } else {
        assert(s.take(0) == Seq::<char>::empty());
    }
}

/// The camelCase form of a name holds none of its underscores: every
/// underscore is dropped, and every other character stays, one for one.
pub proof fn camel_case_drops_every_underscore(s: Seq<char>)
    ensures
        !spec_snake_to_camel(s).contains('_'),
        spec_snake_to_camel(s).len() == s.len() - underscore_count(s),
{
    lemma_camel_prefix_drops_underscores(s, s.len());
    assert(s.take(s.len() as int) == s);
}

} // verus!
