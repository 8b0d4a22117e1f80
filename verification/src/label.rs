//! Which label ("あ" for Japanese input, "A" otherwise) an IBus engine name or
//! an input-mode symbol stands for.
use vstd::prelude::*;

use crate::text::{contains_text, lowercase_of, occurs_at, text_contains, text_equals, to_lowercase};

verus! {

/// The label shown while Japanese input is on: HIRAGANA LETTER A.
pub open spec fn japanese_label() -> Seq<char> {
    seq!['\u{3042}']
}

/// The label shown for direct (alphanumeric) input.
pub open spec fn latin_label() -> Seq<char> {
    seq!['A']
}

/// A lowercase engine name names a Japanese engine when it contains one of
/// the keywords `mozc`, `anthy`, `kkc`, `japanese` or `kana`.
pub open spec fn names_japanese_engine(lower: Seq<char>) -> bool {
    ||| contains_text(lower, "mozc"@)
    ||| contains_text(lower, "anthy"@)
    ||| contains_text(lower, "kkc"@)
    ||| contains_text(lower, "japanese"@)
    ||| contains_text(lower, "kana"@)
}

/// An engine is a Japanese one when its lowercase name names one.
pub open spec fn engine_is_japanese(name: Seq<char>) -> bool {
    names_japanese_engine(lowercase_of(name))
}

/// The label for a lowercase engine name.
pub open spec fn lowercase_engine_label(lower: Seq<char>) -> Seq<char> {
    if names_japanese_engine(lower) {
        japanese_label()
    } else {
        latin_label()
    }
}

/// The label for an IBus engine name.
pub open spec fn engine_label(name: Seq<char>) -> Seq<char> {
    lowercase_engine_label(lowercase_of(name))
}

/// The label for a lowercase symbol text: one naming hiragana or katakana
/// means Japanese input; anything else (`latin`, `direct`, `alphanumeric` or
/// unknown) means direct input.
pub open spec fn lowercase_symbol_text_label(lower: Seq<char>) -> Seq<char> {
    if contains_text(lower, "hiragana"@) || contains_text(lower, "katakana"@) {
        japanese_label()
    } else {
        latin_label()
    }
}

/// The label for an input-mode symbol: the kana symbols あ, ア and ｱ mean
/// Japanese input, `A` and `_` mean direct input, and any other symbol is
/// judged by its lowercase text.
pub open spec fn symbol_label(symbol: Seq<char>) -> Seq<char> {
    if symbol == seq!['\u{3042}'] || symbol == seq!['\u{30a2}'] || symbol == seq!['\u{ff71}'] {
        japanese_label()
    } else if symbol == seq!['A'] || symbol == seq!['_'] {
        latin_label()
    } else {
        lowercase_symbol_text_label(lowercase_of(symbol))
    }
}

/// A lowercase property key reports the input mode when it contains
/// `inputmode`.
pub open spec fn names_input_mode(lower: Seq<char>) -> bool {
    contains_text(lower, "inputmode"@)
}

/// An IBus property reports the input mode when its lowercase key contains
/// `inputmode`.
pub open spec fn is_input_mode_key(key: Seq<char>) -> bool {
    names_input_mode(lowercase_of(key))
}

fn japanese() -> (r: &'static str)
    ensures
        r@ == japanese_label(),
{
    proof {
        reveal_strlit("\u{3042}");
        assert("\u{3042}"@ =~= japanese_label());
    }
    "\u{3042}"
}

fn latin() -> (r: &'static str)
    ensures
        r@ == latin_label(),
{
    proof {
        reveal_strlit("A");
        assert("A"@ =~= latin_label());
    }
    "A"
}

/// The label for an engine name already in lowercase.
pub fn label_from_lowercase_engine(lower: &str) -> (r: &'static str)
    ensures
        r@ == lowercase_engine_label(lower@),
{
    if text_contains(lower, "mozc") || text_contains(lower, "anthy") || text_contains(lower, "kkc")
        || text_contains(lower, "japanese") || text_contains(lower, "kana") {
        japanese()
    } else {
        latin()
    }
}

/// The label for an IBus engine name (`GlobalEngineChanged`, `GetGlobalEngine`).
pub fn label_from_engine(engine_name: &str) -> (r: &'static str)
    ensures
        r@ == engine_label(engine_name@),
{
    let lower = to_lowercase(engine_name);
    label_from_lowercase_engine(lower.as_str())
}

/// The label for a symbol text already in lowercase.
pub fn label_from_lowercase_symbol_text(lower: &str) -> (r: &'static str)
    ensures
        r@ == lowercase_symbol_text_label(lower@),
{
    if text_contains(lower, "hiragana") || text_contains(lower, "katakana") {
        japanese()
    } else if text_contains(lower, "latin") || text_contains(lower, "direct") || text_contains(
        lower,
        "alphanumeric",
    ) {
        latin()
    } else {
        latin()
    }
}

/// The label for the symbol of an input-mode property (`UpdateProperty`).
pub fn label_from_symbol(symbol: &str) -> (r: &'static str)
    ensures
        r@ == symbol_label(symbol@),
{
    proof {
        reveal_strlit("\u{3042}");
        reveal_strlit("\u{30a2}");
        reveal_strlit("\u{ff71}");
        reveal_strlit("A");
        reveal_strlit("_");
        assert("\u{3042}"@ =~= seq!['\u{3042}']);
        assert("\u{30a2}"@ =~= seq!['\u{30a2}']);
        assert("\u{ff71}"@ =~= seq!['\u{ff71}']);
        assert("A"@ =~= seq!['A']);
        assert("_"@ =~= seq!['_']);
    }
    if text_equals(symbol, "\u{3042}") || text_equals(symbol, "\u{30a2}") || text_equals(
        symbol,
        "\u{ff71}",
    ) {
        japanese()
    } else if text_equals(symbol, "A") || text_equals(symbol, "_") {
        latin()
    } else {
        let lower = to_lowercase(symbol);
        label_from_lowercase_symbol_text(lower.as_str())
    }
}

/// Whether `label` is the Japanese-input label あ.
pub fn is_japanese_label(label: &str) -> (r: bool)
    ensures
        r == (label@ == japanese_label()),
{
    proof {
        reveal_strlit("\u{3042}");
        assert("\u{3042}"@ =~= japanese_label());
    }
    text_equals(label, "\u{3042}")
}

/// The label an `UpdateProperty` signal asks for: the symbol's label when the
/// property key names the input mode, and nothing for any other property.
pub fn label_for_property_update(key: &str, symbol: &str) -> (r: Option<&'static str>)
    ensures
        is_input_mode_key(key@) ==> (r matches Some(l) && l@ == symbol_label(symbol@)),
        !is_input_mode_key(key@) ==> r is None,
{
    let lower = to_lowercase(key);
    if key_names_input_mode(lower.as_str()) {
        Some(label_from_symbol(symbol))
    } else {
        None
    }
}

/// Whether a property key already in lowercase reports the input mode.
pub fn key_names_input_mode(lower: &str) -> (r: bool)
    ensures
        r == names_input_mode(lower@),
{
    text_contains(lower, "inputmode")
}

/// Every label the library hands out is one of the two labels.
pub proof fn lemma_labels_are_binary(name: Seq<char>, symbol: Seq<char>)
    ensures
        engine_label(name) == japanese_label() || engine_label(name) == latin_label(),
        symbol_label(symbol) == japanese_label() || symbol_label(symbol) == latin_label(),
{
}

/// The kana symbols always mean Japanese input and `A`/`_` always mean direct
/// input, whatever the lowercase form of the symbol contains.
pub proof fn lemma_exact_symbols_decide(symbol: Seq<char>)
    ensures
        (symbol == seq!['\u{3042}'] || symbol == seq!['\u{30a2}'] || symbol == seq!['\u{ff71}'])
            ==> symbol_label(symbol) == japanese_label(),
        (symbol == seq!['A'] || symbol == seq!['_']) ==> symbol_label(symbol) == latin_label(),
{
    assert(seq!['A'][0] == 'A' && seq!['_'][0] == '_');
    assert(seq!['\u{3042}'][0] == '\u{3042}' && seq!['\u{30a2}'][0] == '\u{30a2}'
        && seq!['\u{ff71}'][0] == '\u{ff71}');
}

/// The tray icon for a label: `icon_ja` (あ on a red circle) for the
/// Japanese-input label, `icon_a` (A on a black circle) for any other.
pub fn tray_icon_name(label: &str) -> (r: &'static str)
    ensures
        label@ == japanese_label() ==> r@ == "icon_ja"@,
        label@ != japanese_label() ==> r@ == "icon_a"@,
{
    if is_japanese_label(label) {
        "icon_ja"
    } else {
        "icon_a"
    }
}

/// A keyword found in a lowercase engine name is still found when the name
/// stands inside a longer lowercase text: such a text also names a Japanese
/// engine.
pub proof fn lemma_keyword_found_in_longer_text(p: Seq<char>, lower: Seq<char>, q: Seq<char>)
    requires
        names_japanese_engine(lower),
    ensures
        names_japanese_engine(p + lower + q),
        lowercase_engine_label(p + lower + q) == japanese_label(),
{
    let t = p + lower + q;
    assert forall|k: Seq<char>| #[trigger] contains_text(lower, k) implies contains_text(t, k) by {
        let i = choose|i: int| occurs_at(lower, k, i);
        assert(t.subrange(p.len() + i, p.len() + i + k.len()) =~= lower.subrange(i, i + k.len()));
        assert(occurs_at(t, k, p.len() + i));
    }
}

/// An engine name gets あ exactly when its lowercase form contains one of the
/// five keywords `mozc`, `anthy`, `kkc`, `japanese`, `kana`, and `A` otherwise.
pub proof fn lemma_engine_label_by_keywords(name: Seq<char>, lower: Seq<char>)
    ensures
        lowercase_engine_label(lower) == japanese_label() <==> (contains_text(lower, "mozc"@)
            || contains_text(lower, "anthy"@) || contains_text(lower, "kkc"@) || contains_text(
            lower,
            "japanese"@,
        ) || contains_text(lower, "kana"@)),
        lowercase_engine_label(lower) != japanese_label() ==> lowercase_engine_label(lower)
            == seq!['A'],
        engine_label(name) == japanese_label() <==> (contains_text(lowercase_of(name), "mozc"@)
            || contains_text(lowercase_of(name), "anthy"@) || contains_text(
            lowercase_of(name),
            "kkc"@,
        ) || contains_text(lowercase_of(name), "japanese"@) || contains_text(
            lowercase_of(name),
            "kana"@,
        )),
        engine_label(name) != japanese_label() ==> engine_label(name) == seq!['A'],
{
    assert(seq!['A'][0] != seq!['\u{3042}'][0]);
}

/// A symbol gets あ exactly when it is one of the kana symbols あ, ア, ｱ, or,
/// being neither `A` nor `_`, its lowercase form contains `hiragana` or
/// `katakana`; every other symbol gets `A`.
pub proof fn lemma_symbol_label_by_kana(symbol: Seq<char>, lower: Seq<char>)
    ensures
        lowercase_symbol_text_label(lower) == japanese_label() <==> (contains_text(
            lower,
            "hiragana"@,
        ) || contains_text(lower, "katakana"@)),
        symbol_label(symbol) == japanese_label() <==> (symbol == seq!['\u{3042}'] || symbol
            == seq!['\u{30a2}'] || symbol == seq!['\u{ff71}'] || (symbol != seq!['A'] && symbol
            != seq!['_'] && (contains_text(lowercase_of(symbol), "hiragana"@) || contains_text(
            lowercase_of(symbol),
            "katakana"@,
        )))),
        symbol_label(symbol) != japanese_label() ==> symbol_label(symbol) == seq!['A'],
{
    assert(seq!['A'][0] != seq!['\u{3042}'][0]);
    assert(seq!['_'][0] != seq!['\u{3042}'][0]);
    assert(seq!['\u{30a2}'][0] != seq!['A'][0] && seq!['\u{30a2}'][0] != seq!['_'][0]);
    assert(seq!['\u{ff71}'][0] != seq!['A'][0] && seq!['\u{ff71}'][0] != seq!['_'][0]);
    assert(seq!['\u{3042}'][0] != seq!['A'][0] && seq!['\u{3042}'][0] != seq!['_'][0]);
}

} // verus!
