//! What the indicator reads from the IBus bus: where the bus is, the engine
//! name and input-mode property carried by D-Bus values, and which caret
//! events the eavesdropped `InputContext` messages amount to.
use vstd::prelude::*;

use crate::text::{
    chars_of, contains_text, find_char_from, index_of_from, lemma_index_of_bounds, skip_char_from,
    skip_char_from_exec, starts_with, text_contains, text_starts_with, trim, trim_of,
};

verus! {

// ---------------------------------------------------------------------------
// Locating the bus
// ---------------------------------------------------------------------------

/// The `IBUS_ADDRESS` variable names the bus when it is set and not empty.
pub fn address_from_environment(value: Option<&str>) -> (r: Option<String>)
    ensures
        match value {
            Some(v) => if v@.len() > 0 {
                r matches Some(a) && a@ == v@
            } else {
                r is None
            },
            None => r is None,
        },
{
    match value {
        Some(v) => {
            if v.unicode_len() > 0 {
                Some(v.to_owned())
            } else {
                None
            }
        },
        None => None,
    }
}

/// The display number of an X display name: the part after the leading
/// colons and before the first dot (`":1.0"` gives `"1"`).
pub open spec fn display_number_of(display: Seq<char>) -> Seq<char> {
    let a = skip_char_from(display, ':', 0);
    display.subrange(a, index_of_from(display, '.', a))
}

/// The display number of an X display name.
pub fn display_number(display: &str) -> (r: &str)
    ensures
        r@ == display_number_of(display@),
{
    let v = chars_of(display);
    let a = skip_char_from_exec(&v, ':', 0);
    let b = find_char_from(&v, '.', a);
    display.substring_char(a, b)
}

/// The suffix that names this session's bus socket file:
/// `<machine id>-unix-<display number>`.
pub open spec fn socket_suffix_of(machine_id: Seq<char>, display: Seq<char>) -> Seq<char> {
    trim_of(machine_id) + "-unix-"@ + display_number_of(display)
}

/// The socket-file suffix from the machine-id file's text and the `DISPLAY`
/// variable (`:0` when unset).
pub fn socket_suffix(machine_id_file: &str, display: Option<&str>) -> (r: String)
    ensures
        r@ == socket_suffix_of(
            machine_id_file@,
            match display {
                Some(d) => d@,
                None => ":0"@,
            },
        ),
{
    let d = match display {
        Some(d) => d,
        None => ":0",
    };
    let mut s = trim(machine_id_file).to_owned();
    s.append("-unix-");
    s.append(display_number(d));
    s
}

/// The directory holding IBus socket files: `<home>/.config/ibus/bus`, with
/// `/root` when `HOME` is unset.
pub fn bus_directory(home: Option<&str>) -> (r: String)
    ensures
        r@ == match home {
            Some(h) => h@,
            None => "/root"@,
        } + "/.config/ibus/bus"@,
{
    let mut s = match home {
        Some(h) => h.to_owned(),
        None => "/root".to_owned(),
    };
    s.append("/.config/ibus/bus");
    s
}

/// The first directory entry whose name contains the socket suffix.
pub fn select_socket_entry(names: &Vec<String>, suffix: &str) -> (r: Option<usize>)
    ensures
        match r {
            Some(i) => i < names@.len() && contains_text(names@[i as int]@, suffix@) && forall|
                k: int,
            |
                0 <= k < i ==> !contains_text(#[trigger] names@[k]@, suffix@),
            None => forall|k: int|
                0 <= k < names@.len() ==> !contains_text(#[trigger] names@[k]@, suffix@),
        },
{
    let mut i: usize = 0;
    while i < names.len()
        invariant
            i <= names@.len(),
            forall|k: int| 0 <= k < i ==> !contains_text(#[trigger] names@[k]@, suffix@),
        decreases names@.len() - i,
    {
        if text_contains(names[i].as_str(), suffix) {
            return Some(i);
        }
        i = i + 1;
    }
    None
}

/// The prefix of the line that carries the address in a socket file.
pub open spec fn address_key() -> Seq<char> {
    "IBUS_ADDRESS="@
}

/// The address in a socket file, looking at the lines from index `start` on:
/// the rest of the first line that, trimmed, begins with `IBUS_ADDRESS=`.
pub open spec fn address_in_lines(s: Seq<char>, start: int) -> Option<Seq<char>>
    decreases s.len() - start,
{
    if start < 0 || start >= s.len() {
        None
    } else {
        let end = index_of_from(s, '\n', start);
        let line = trim_of(s.subrange(start, end));
        if starts_with(line, address_key()) {
            Some(line.subrange(address_key().len() as int, line.len() as int))
        } else if end >= s.len() {
            None
        } else {
            proof {
                lemma_index_of_bounds(s, '\n', start);
            }
            address_in_lines(s, end + 1)
        }
    }
}

/// The address a socket file's text gives.
pub fn address_from_socket_file(content: &str) -> (r: Option<String>)
    ensures
        match r {
            Some(a) => address_in_lines(content@, 0) == Some(a@),
            None => address_in_lines(content@, 0) is None,
        },
{
    let v = chars_of(content);
    let n = v.len();
    let mut start: usize = 0;
    while start < n
        invariant
            n == content@.len(),
            v@ == content@,
            start <= n,
            address_in_lines(content@, 0) == address_in_lines(content@, start as int),
        decreases n - start,
    {
        let end = find_char_from(&v, '\n', start);
        let line = trim(content.substring_char(start, end));
        if text_starts_with(line, "IBUS_ADDRESS=") {
            let p = "IBUS_ADDRESS=".unicode_len();
            let rest = line.substring_char(p, line.unicode_len());
            return Some(rest.to_owned());
        }
        if end >= n {
            return None;
        }
        start = end + 1;
    }
    None
}

proof fn lemma_index_of_shift(p: Seq<char>, q: Seq<char>, c: char, j: int)
    requires
        0 <= j <= q.len(),
    ensures
        index_of_from(p + q, c, p.len() + j) == p.len() + index_of_from(q, c, j),
    decreases q.len() - j,
{
    if j < q.len() && q[j] != c {
        assert((p + q)[p.len() + j] == q[j]);
        lemma_index_of_shift(p, q, c, j + 1);
    } else if j < q.len() {
        assert((p + q)[p.len() + j] == q[j]);
    }
}

proof fn lemma_index_of_in_prefix(p: Seq<char>, q: Seq<char>, c: char, i: int)
    requires
        0 <= i < p.len(),
        p.last() == c,
    ensures
        index_of_from(p + q, c, i) == index_of_from(p, c, i),
        i <= index_of_from(p, c, i) < p.len(),
        p[index_of_from(p, c, i)] == c,
    decreases p.len() - i,
{
    assert((p + q)[i] == p[i]);
    if p[i] != c {
        lemma_index_of_in_prefix(p, q, c, i + 1);
    }
}

proof fn lemma_address_shift(p: Seq<char>, q: Seq<char>, j: int)
    requires
        0 <= j <= q.len(),
    ensures
        address_in_lines(p + q, p.len() + j) == address_in_lines(q, j),
    decreases q.len() - j,
{
    if j < q.len() {
        lemma_index_of_shift(p, q, '\n', j);
        lemma_index_of_bounds(q, '\n', j);
        let end = index_of_from(q, '\n', j);
        assert((p + q).subrange(p.len() + j, p.len() + end) =~= q.subrange(j, end));
        if end < q.len() {
            lemma_address_shift(p, q, end + 1);
        }
    }
}

/// A text made of whole lines (empty, or ending in a newline), none of which,
/// trimmed, begins with `IBUS_ADDRESS=`.
pub open spec fn lines_without_address(p: Seq<char>) -> bool {
    &&& (p.len() == 0 || p.last() == '\n')
    &&& forall|i: int|
        0 <= i < p.len() && (i == 0 || p[i - 1] == '\n') ==> !starts_with(
            trim_of(#[trigger] p.subrange(i, index_of_from(p, '\n', i))),
            address_key(),
        )
}

proof fn lemma_address_skips_from(p: Seq<char>, q: Seq<char>, i: int)
    requires
        lines_without_address(p),
        0 <= i <= p.len(),
        i == 0 || i == p.len() || p[i - 1] == '\n',
    ensures
        address_in_lines(p + q, i) == address_in_lines(q, 0),
    decreases p.len() - i,
{
    if i == p.len() {
        lemma_address_shift(p, q, 0);
        if q.len() == 0 {
            assert(p + q =~= p);
        }
    } else {
        lemma_index_of_in_prefix(p, q, '\n', i);
        let end = index_of_from(p, '\n', i);
        assert((p + q).subrange(i, end) =~= p.subrange(i, end));
        assert(!starts_with(trim_of(p.subrange(i, end)), address_key()));
        lemma_address_skips_from(p, q, end + 1);
    }
}

/// Lines before the address line do not matter: after whole lines none of
/// which carries the address, the address is what the rest of the text gives.
pub proof fn lemma_address_skips_other_lines(p: Seq<char>, q: Seq<char>)
    requires
        lines_without_address(p),
    ensures
        address_in_lines(p + q, 0) == address_in_lines(q, 0),
{
    lemma_address_skips_from(p, q, 0);
}

/// A line that, trimmed, begins with `IBUS_ADDRESS=` gives the rest of the
/// trimmed line as the address, wherever it stands after lines that carry no
/// address, and whatever lines follow it.
pub proof fn lemma_address_line_found(p: Seq<char>, line: Seq<char>, rest: Seq<char>)
    requires
        lines_without_address(p),
        !line.contains('\n'),
        starts_with(trim_of(line), address_key()),
        rest.len() == 0 || rest[0] == '\n',
    ensures
        address_in_lines(p + line + rest, 0) == Some(
            trim_of(line).subrange(address_key().len() as int, trim_of(line).len() as int),
        ),
{
    let q = line + rest;
    assert(p + line + rest =~= p + q);
    lemma_address_skips_other_lines(p, q);
    assert(index_of_from(q, '\n', 0) == line.len()) by {
        lemma_index_of_line(line, rest, 0);
    }
    assert(q.subrange(0, line.len() as int) =~= line);
    if q.len() == 0 {
        assert(trim_of(line).len() == 0);
        reveal_strlit("IBUS_ADDRESS=");
    }
}

proof fn lemma_index_of_line(line: Seq<char>, rest: Seq<char>, i: int)
    requires
        !line.contains('\n'),
        rest.len() == 0 || rest[0] == '\n',
        0 <= i <= line.len(),
    ensures
        index_of_from(line + rest, '\n', i) == line.len(),
    decreases line.len() - i,
{
    if i < line.len() {
        assert((line + rest)[i] == line[i]);
        assert(line[i] != '\n');
        lemma_index_of_line(line, rest, i + 1);
    } else if rest.len() > 0 {
        assert((line + rest)[i] == rest[0]);
    }
}

// ---------------------------------------------------------------------------
// D-Bus values
// ---------------------------------------------------------------------------

/// A D-Bus value (`glib::Variant`) as far as the indicator reads it: 32-bit
/// integers, strings (also object paths and signatures), containers (tuples,
/// arrays, dictionary entries, boxed variants, maybes) with their children,
/// and of anything else nothing.
#[derive(Debug)]
pub enum Variant {
    Int32(i32),
    Str(String),
    Container(Vec<Variant>),
    Other,
}

/// The children of a container (none for any other value).
pub open spec fn children(v: Variant) -> Seq<Variant> {
    match v {
        Variant::Container(items) => items@,
        _ => Seq::empty(),
    }
}

/// `v` is a container with a child at `i`, so that `child_value(i)` does not
/// panic.
pub open spec fn has_child(v: Variant, i: int) -> bool {
    v is Container && 0 <= i < children(v).len()
}

/// `Variant::try_child_value`.
pub open spec fn try_child(v: Variant, i: int) -> Option<Variant> {
    if has_child(v, i) {
        Some(children(v)[i])
    } else {
        None
    }
}

/// `Variant::str`: the text of a string value.
pub open spec fn text_of(v: Variant) -> Option<Seq<char>> {
    match v {
        Variant::Str(s) => Some(s@),
        _ => None,
    }
}

/// The text of an optional string.
pub open spec fn opt_string(o: Option<String>) -> Option<Seq<char>> {
    match o {
        Some(s) => Some(s@),
        None => None,
    }
}

fn child_at(v: &Variant, i: usize) -> (r: &Variant)
    requires
        has_child(*v, i as int),
    ensures
        *r == children(*v)[i as int],
{
    match v {
        Variant::Container(items) => &items[i],
        _ => {
            proof {
                assert(false);
            }
            v
        },
    }
}

fn try_child_at(v: &Variant, i: usize) -> (r: Option<&Variant>)
    ensures
        match r {
            Some(c) => try_child(*v, i as int) == Some(*c),
            None => try_child(*v, i as int) is None,
        },
{
    match v {
        Variant::Container(items) => if i < items.len() {
            Some(&items[i])
        } else {
            None
        },
        _ => None,
    }
}

fn text_in(v: &Variant) -> (r: Option<String>)
    ensures
        opt_string(r) == text_of(*v),
{
    match v {
        Variant::Str(s) => Some(s.clone()),
        _ => None,
    }
}

/// The reply of `GetGlobalEngine` (a tuple holding a boxed engine
/// description) has the shape the reading below needs without panicking.
pub open spec fn engine_reply_readable(reply: Variant) -> bool {
    has_child(reply, 0) && has_child(children(reply)[0], 0)
}

/// The engine name in a `GetGlobalEngine` reply: the third field of the
/// engine description.
pub open spec fn engine_name_in(reply: Variant) -> Option<Seq<char>> {
    let desc = children(children(reply)[0])[0];
    match try_child(desc, 2) {
        Some(name) => text_of(name),
        None => None,
    }
}

/// Reads the engine name from a `GetGlobalEngine` reply.
pub fn extract_engine_name(reply: &Variant) -> (r: Option<String>)
    requires
        engine_reply_readable(*reply),
    ensures
        opt_string(r) == engine_name_in(*reply),
{
    let variant = child_at(reply, 0);
    let engine_desc = child_at(variant, 0);
    match try_child_at(engine_desc, 2) {
        Some(name) => text_in(name),
        None => None,
    }
}

/// The engine name a `GlobalEngineChanged` signal carries: its first
/// parameter, when that is a string.
pub fn engine_name_from_signal(params: &Variant) -> (r: Option<String>)
    requires
        has_child(*params, 0),
    ensures
        opt_string(r) == text_of(children(*params)[0]),
{
    text_in(child_at(params, 0))
}

/// The property in `UpdateProperty` parameters (a tuple holding a boxed
/// `IBusProperty`).
pub open spec fn property_in(params: Variant) -> Variant {
    children(children(params)[0])[0]
}

/// The symbol text value inside a property (field 11 is a boxed `IBusText`).
pub open spec fn symbol_text_in(prop: Variant) -> Variant {
    children(children(prop)[11])[0]
}

/// `UpdateProperty` parameters have the shape the reading below needs
/// without panicking: the property is reached through two first children, it
/// is a container, and when it has twelve fields and a text key its symbol
/// field holds a container.
pub open spec fn property_params_readable(params: Variant) -> bool {
    &&& has_child(params, 0)
    &&& has_child(children(params)[0], 0)
    &&& property_in(params) is Container
    &&& (children(property_in(params)).len() >= 12 && text_of(children(property_in(params))[2])
        is Some) ==> (has_child(children(property_in(params))[11], 0) && symbol_text_in(
        property_in(params),
    ) is Container)
}

/// The key (field 2) and symbol (field 2 of the symbol text) of the property
/// in `UpdateProperty` parameters, when the property has twelve fields, the
/// symbol text three, and both are strings.
pub open spec fn property_key_and_symbol(params: Variant) -> Option<(Seq<char>, Seq<char>)> {
    let prop = property_in(params);
    if children(prop).len() < 12 {
        None
    } else {
        match text_of(children(prop)[2]) {
            None => None,
            Some(key) => {
                let st = symbol_text_in(prop);
                if children(st).len() < 3 {
                    None
                } else {
                    match text_of(children(st)[2]) {
                        None => None,
                        Some(symbol) => Some((key, symbol)),
                    }
                }
            },
        }
    }
}

fn n_children(v: &Variant) -> (r: usize)
    requires
        *v is Container,
    ensures
        r == children(*v).len(),
{
    match v {
        Variant::Container(items) => items.len(),
        _ => 0,
    }
}

/// Reads the key and symbol of the property an `UpdateProperty` signal
/// carries.
pub fn extract_property_key_and_symbol(params: &Variant) -> (r: Option<(String, String)>)
    requires
        property_params_readable(*params),
    ensures
        match r {
            Some((k, s)) => property_key_and_symbol(*params) == Some((k@, s@)),
            None => property_key_and_symbol(*params) is None,
        },
{
    let prop_variant = child_at(params, 0);
    let prop = child_at(prop_variant, 0);
    let n = n_children(prop);
    if n < 12 {
        return None;
    }
    let key = match try_child_at(prop, 2) {
        Some(k) => match text_in(k) {
            Some(t) => t,
            None => return None,
        },
        None => return None,
    };
    let symbol_variant = match try_child_at(prop, 11) {
        Some(s) => s,
        None => return None,
    };
    let symbol_text = child_at(symbol_variant, 0);
    if n_children(symbol_text) < 3 {
        return None;
    }
    let symbol = match try_child_at(symbol_text, 2) {
        Some(s) => match text_in(s) {
            Some(t) => t,
            None => return None,
        },
        None => return None,
    };
    Some((key, symbol))
}

/// Whether `v` is a container with a child at `i`.
pub fn has_child_at(v: &Variant, i: usize) -> (r: bool)
    ensures
        r == has_child(*v, i as int),
{
    match v {
        Variant::Container(items) => i < items.len(),
        _ => false,
    }
}

/// Whether a `GetGlobalEngine` reply can be read without panicking.
pub fn engine_reply_is_readable(reply: &Variant) -> (r: bool)
    ensures
        r == engine_reply_readable(*reply),
{
    has_child_at(reply, 0) && has_child_at(child_at(reply, 0), 0)
}

/// Whether `UpdateProperty` parameters can be read without panicking.
pub fn property_params_are_readable(params: &Variant) -> (r: bool)
    ensures
        r == property_params_readable(*params),
{
    if !has_child_at(params, 0) || !has_child_at(child_at(params, 0), 0) {
        return false;
    }
    let prop = child_at(child_at(params, 0), 0);
    let items = match prop {
        Variant::Container(items) => items,
        _ => return false,
    };
    if items.len() < 12 {
        return true;
    }
    match &items[2] {
        Variant::Str(_) => {},
        _ => return true,
    }
    if !has_child_at(&items[11], 0) {
        return false;
    }
    match child_at(&items[11], 0) {
        Variant::Container(_) => true,
        _ => false,
    }
}

// ---------------------------------------------------------------------------
// Match rules
// ---------------------------------------------------------------------------

/// The eavesdropping match rule for messages of type `kind` with member
/// `member` on the `InputContext` interface.
pub open spec fn match_rule_of(kind: Seq<char>, member: Seq<char>) -> Seq<char> {
    "eavesdrop=true,type='"@ + kind + "',interface='org.freedesktop.IBus.InputContext',member='"@
        + member + "'"@
}

/// Builds an eavesdropping match rule.
pub fn match_rule(kind: &str, member: &str) -> (r: String)
    ensures
        r@ == match_rule_of(kind@, member@),
{
    let mut s = String::from_str("eavesdrop=true,type='");
    s.append(kind);
    s.append("',interface='org.freedesktop.IBus.InputContext',member='");
    s.append(member);
    s.append("'");
    s
}

/// The match rules added to the bus, in order: `UpdateProperty` signals,
/// `SetCursorLocation` calls, then `FocusIn` and `FocusOut`, each as call and
/// as signal.
pub open spec fn match_rules_spec() -> Seq<Seq<char>> {
    seq![
        match_rule_of("signal"@, "UpdateProperty"@),
        match_rule_of("method_call"@, "SetCursorLocation"@),
        match_rule_of("method_call"@, "FocusIn"@),
        match_rule_of("signal"@, "FocusIn"@),
        match_rule_of("method_call"@, "FocusOut"@),
        match_rule_of("signal"@, "FocusOut"@),
    ]
}

/// The match rules to add to the bus.
pub fn ibus_match_rules() -> (r: Vec<String>)
    ensures
        r@.map_values(|s: String| s@) == match_rules_spec(),
{
    let mut rules: Vec<String> = Vec::new();
    rules.push(match_rule("signal", "UpdateProperty"));
    rules.push(match_rule("method_call", "SetCursorLocation"));
    rules.push(match_rule("method_call", "FocusIn"));
    rules.push(match_rule("signal", "FocusIn"));
    rules.push(match_rule("method_call", "FocusOut"));
    rules.push(match_rule("signal", "FocusOut"));
    assert(rules@.map_values(|s: String| s@) =~= match_rules_spec());
    rules
}

} // verus!
