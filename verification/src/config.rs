//! Overlay styles and how they are resolved from the hard-coded defaults, the
//! top level of the configuration file, the command line, and the `[on]` and
//! `[off]` sections of the file.
use vstd::prelude::*;

use crate::config_value::{
    kind_of, parse_toml_document, table_get, table_lookup, toml_document, ConfigValue, ValueKind,
};

verus! {

pub const DEFAULT_POLL_MS: u64 = 75;

pub const DEFAULT_OFFSET_X: i32 = 20;

pub const DEFAULT_OFFSET_Y: i32 = 18;

pub const DEFAULT_WIDTH: i32 = 34;

pub const DEFAULT_HEIGHT: i32 = 34;

/// The default opacity 0.70, as the bit pattern of an IEEE-754 double.
pub const DEFAULT_OPACITY_BITS: u64 = 0x3FE6_6666_6666_6666;

/// An opacity as it was given: a floating-point number (by its IEEE-754 bit
/// pattern) or an integer from the configuration file. The library carries it
/// without computing with it; it is clamped to 0.1..=1.0 where it is drawn.
#[derive(Clone, Copy, Debug, PartialEq, Eq, Structural)]
pub enum Opacity {
    FloatBits(u64),
    Integer(i64),
}

/// Placement and look of the overlay for one input mode.
#[derive(Clone, Copy, Debug, PartialEq, Eq, Structural)]
pub struct OverlayStyle {
    pub offset_x: i32,
    pub offset_y: i32,
    pub width: i32,
    pub height: i32,
    pub opacity: Opacity,
}

/// One configuration layer: each field, where present, replaces the one below.
#[derive(Clone, Copy, Debug, PartialEq, Eq, Structural)]
pub struct StyleOverride {
    pub offset_x: Option<i32>,
    pub offset_y: Option<i32>,
    pub width: Option<i32>,
    pub height: Option<i32>,
    pub opacity: Option<Opacity>,
}

/// The command-line options.
#[derive(Clone, Copy, Debug, PartialEq, Eq, Structural)]
pub struct CliArgs {
    pub poll_ms: Option<u64>,
    pub offset_x: Option<i32>,
    pub offset_y: Option<i32>,
    pub width: Option<i32>,
    pub height: Option<i32>,
    pub opacity: Option<Opacity>,
}

/// What the configuration file contributes.
#[derive(Clone, Copy, Debug, PartialEq, Eq, Structural)]
pub struct FileConfig {
    pub poll_ms: Option<u64>,
    pub top: StyleOverride,
    pub on: StyleOverride,
    pub off: StyleOverride,
}

/// The resolved configuration.
#[derive(Clone, Copy, Debug, PartialEq, Eq, Structural)]
pub struct AppConfig {
    pub poll_ms: u64,
    pub on_style: OverlayStyle,
    pub off_style: OverlayStyle,
}

/// What is wrong with a configuration value.
#[derive(Clone, Copy, Debug, PartialEq, Eq, Structural)]
pub enum ValueProblem {
    /// An integer outside the range of `i32`.
    OutOfI32Range(i64),
    /// Not an integer; the kind it has.
    NotInteger(ValueKind),
    /// An integer that should be above zero.
    NotPositive(i64),
    /// Neither a float nor an integer; the kind it has.
    NotFloat(ValueKind),
    /// A section that is not a table; the kind it has.
    NotTable(ValueKind),
}

/// A command-line size option.
#[derive(Clone, Copy, Debug, PartialEq, Eq, Structural)]
pub enum CliDimension {
    Width,
    Height,
}

/// A warning about an ignored setting.
#[derive(Debug)]
pub enum ConfigWarning {
    /// The setting named `key` (such as `width` or `[on].width`) is ignored.
    Value { key: String, problem: ValueProblem },
    /// The configuration file is not valid TOML; the parser's message.
    Unparsable { message: String },
    /// A command-line size that is not above zero is ignored.
    CliNotPositive { option: CliDimension },
}

/// A warning, with its texts as character sequences.
pub enum WarningView {
    Value { key: Seq<char>, problem: ValueProblem },
    Unparsable { message: Seq<char> },
    CliNotPositive { option: CliDimension },
}

impl View for ConfigWarning {
    type V = WarningView;

    open spec fn view(&self) -> WarningView {
        match self {
            ConfigWarning::Value { key, problem } => WarningView::Value { key: key@, problem: *problem },
            ConfigWarning::Unparsable { message } => WarningView::Unparsable { message: message@ },
            ConfigWarning::CliNotPositive { option } => WarningView::CliNotPositive {
                option: *option,
            },
        }
    }
}

/// The warnings of a list, as views.
pub open spec fn warnings_view(ws: Seq<ConfigWarning>) -> Seq<WarningView> {
    ws.map_values(|w: ConfigWarning| w@)
}

/// A field of a layer over the field below it.
pub open spec fn layered<T>(o: Option<T>, below: T) -> T {
    match o {
        Some(v) => v,
        None => below,
    }
}

impl StyleOverride {
    /// `base` with every present field of this layer put over it.
    pub open spec fn over(self, base: OverlayStyle) -> OverlayStyle {
        OverlayStyle {
            offset_x: layered(self.offset_x, base.offset_x),
            offset_y: layered(self.offset_y, base.offset_y),
            width: layered(self.width, base.width),
            height: layered(self.height, base.height),
            opacity: layered(self.opacity, base.opacity),
        }
    }

    /// The layer that changes nothing.
    pub open spec fn nothing() -> StyleOverride {
        StyleOverride {
            offset_x: None,
            offset_y: None,
            width: None,
            height: None,
            opacity: None,
        }
    }

    /// The layer that changes nothing.
    pub fn empty() -> (r: StyleOverride)
        ensures
            r == StyleOverride::nothing(),
    {
        StyleOverride { offset_x: None, offset_y: None, width: None, height: None, opacity: None }
    }

    /// Puts this layer over `style`.
    pub fn apply_to(self, style: OverlayStyle) -> (r: OverlayStyle)
        ensures
            r == self.over(style),
    {
        let mut style = style;
        if let Some(v) = self.offset_x {
            style.offset_x = v;
        }
        if let Some(v) = self.offset_y {
            style.offset_y = v;
        }
        if let Some(v) = self.width {
            style.width = v;
        }
        if let Some(v) = self.height {
            style.height = v;
        }
        if let Some(v) = self.opacity {
            style.opacity = v;
        }
        style
    }
}

/// The hard-coded style: offset (20, 18), size 34 x 34, opacity 0.70.
pub open spec fn default_overlay_style() -> OverlayStyle {
    OverlayStyle {
        offset_x: DEFAULT_OFFSET_X,
        offset_y: DEFAULT_OFFSET_Y,
        width: DEFAULT_WIDTH,
        height: DEFAULT_HEIGHT,
        opacity: Opacity::FloatBits(DEFAULT_OPACITY_BITS),
    }
}

/// The hard-coded style.
pub fn default_style() -> (r: OverlayStyle)
    ensures
        r == default_overlay_style(),
{
    OverlayStyle {
        offset_x: DEFAULT_OFFSET_X,
        offset_y: DEFAULT_OFFSET_Y,
        width: DEFAULT_WIDTH,
        height: DEFAULT_HEIGHT,
        opacity: Opacity::FloatBits(DEFAULT_OPACITY_BITS),
    }
}

/// An integer setting (`offset_x`, `offset_y`): an integer in `i32` range.
pub open spec fn i32_setting(v: ConfigValue) -> Result<i32, ValueProblem> {
    match v {
        ConfigValue::Integer(n) => if i32::MIN <= n <= i32::MAX {
            Ok(n as i32)
        } else {
            Err(ValueProblem::OutOfI32Range(n))
        },
        _ => Err(ValueProblem::NotInteger(kind_of(v))),
    }
}

/// A size setting (`width`, `height`): an `i32` setting above zero.
pub open spec fn positive_i32_setting(v: ConfigValue) -> Result<i32, ValueProblem> {
    match i32_setting(v) {
        Ok(n) => if n <= 0 {
            Err(ValueProblem::NotPositive(n as i64))
        } else {
            Ok(n)
        },
        Err(p) => Err(p),
    }
}

/// The polling interval (`poll_ms`): an integer above zero.
pub open spec fn poll_ms_setting(v: ConfigValue) -> Result<u64, ValueProblem> {
    match v {
        ConfigValue::Integer(n) => if n <= 0 {
            Err(ValueProblem::NotPositive(n))
        } else {
            Ok(n as u64)
        },
        _ => Err(ValueProblem::NotInteger(kind_of(v))),
    }
}

/// The opacity (`opacity`): a float or an integer.
pub open spec fn opacity_setting(v: ConfigValue) -> Result<Opacity, ValueProblem> {
    match v {
        ConfigValue::Float(b) => Ok(Opacity::FloatBits(b)),
        ConfigValue::Integer(n) => Ok(Opacity::Integer(n)),
        _ => Err(ValueProblem::NotFloat(kind_of(v))),
    }
}

/// `r` is what `expected` says, with a warning for the setting `key` in place
/// of each problem.
pub open spec fn reports<T>(
    r: Result<T, ConfigWarning>,
    key: Seq<char>,
    expected: Result<T, ValueProblem>,
) -> bool {
    match (r, expected) {
        (Ok(a), Ok(b)) => a == b,
        (Err(w), Err(p)) => w@ == (WarningView::Value { key, problem: p }),
        _ => false,
    }
}

/// Reads an `i32` setting named `label`.
pub fn parse_i32_value(value: &ConfigValue, label: &str) -> (r: Result<i32, ConfigWarning>)
    ensures
        reports(r, label@, i32_setting(*value)),
{
    match value {
        ConfigValue::Integer(v) => {
            if i32::MIN as i64 <= *v && *v <= i32::MAX as i64 {
                Ok(*v as i32)
            } else {
                Err(
                    ConfigWarning::Value {
                        key: label.to_owned(),
                        problem: ValueProblem::OutOfI32Range(*v),
                    },
                )
            }
        },
        _ => Err(
            ConfigWarning::Value {
                key: label.to_owned(),
                problem: ValueProblem::NotInteger(value.kind()),
            },
        ),
    }
}

/// Reads a size setting named `label`.
pub fn parse_positive_i32_value(value: &ConfigValue, label: &str) -> (r: Result<
    i32,
    ConfigWarning,
>)
    ensures
        reports(r, label@, positive_i32_setting(*value)),
{
    let v = parse_i32_value(value, label)?;
    if v <= 0 {
        Err(
            ConfigWarning::Value {
                key: label.to_owned(),
                problem: ValueProblem::NotPositive(v as i64),
            },
        )
    } else {
        Ok(v)
    }
}

/// Reads the polling interval named `label`.
pub fn parse_poll_ms_value(value: &ConfigValue, label: &str) -> (r: Result<u64, ConfigWarning>)
    ensures
        reports(r, label@, poll_ms_setting(*value)),
{
    match value {
        ConfigValue::Integer(v) => {
            if *v <= 0 {
                Err(
                    ConfigWarning::Value {
                        key: label.to_owned(),
                        problem: ValueProblem::NotPositive(*v),
                    },
                )
            } else {
                Ok(*v as u64)
            }
        },
        _ => Err(
            ConfigWarning::Value {
                key: label.to_owned(),
                problem: ValueProblem::NotInteger(value.kind()),
            },
        ),
    }
}

/// Reads the opacity named `label`.
pub fn parse_opacity_value(value: &ConfigValue, label: &str) -> (r: Result<
    Opacity,
    ConfigWarning,
>)
    ensures
        reports(r, label@, opacity_setting(*value)),
{
    match value {
        ConfigValue::Float(b) => Ok(Opacity::FloatBits(*b)),
        ConfigValue::Integer(n) => Ok(Opacity::Integer(*n)),
        _ => Err(
            ConfigWarning::Value {
                key: label.to_owned(),
                problem: ValueProblem::NotFloat(value.kind()),
            },
        ),
    }
}

/// The view of an optional text.
pub open spec fn opt_text(o: Option<&str>) -> Option<Seq<char>> {
    match o {
        Some(t) => Some(t@),
        None => None,
    }
}

/// The name under which a setting is reported: `[on].width` for a key of the
/// `[on]` section, the bare key at the top level.
pub open spec fn key_label(section: Option<Seq<char>>, key: Seq<char>) -> Seq<char> {
    match section {
        Some(sec) => "["@ + sec + "]."@ + key,
        None => key,
    }
}

/// The name under which a section itself is reported: `[on]`.
pub open spec fn section_label(name: Seq<char>) -> Seq<char> {
    "["@ + name + "]"@
}

/// Builds the name under which a setting is reported.
pub fn key_label_of(section: Option<&str>, key: &str) -> (r: String)
    ensures
        r@ == key_label(opt_text(section), key@),
{
    match section {
        Some(sec) => {
            let mut label = String::from_str("[");
            label.append(sec);
            label.append("].");
            label.append(key);
            label
        },
        None => key.to_owned(),
    }
}

/// A setting found (or not) in a table: its value when it is acceptable, a
/// warning under `label` when it is not, and nothing when it is absent.
pub open spec fn setting_value<T>(
    found: Option<ConfigValue>,
    label: Seq<char>,
    setting: spec_fn(ConfigValue) -> Result<T, ValueProblem>,
) -> (Option<T>, Seq<WarningView>) {
    match found {
        None => (None, Seq::empty()),
        Some(v) => match setting(v) {
            Ok(x) => (Some(x), Seq::empty()),
            Err(p) => (None, seq![WarningView::Value { key: label, problem: p }]),
        },
    }
}

/// The style layer a table gives (the top level when `section` is `None`),
/// with the warnings for the keys it ignores, in key order `offset_x`,
/// `offset_y`, `width`, `height`, `opacity`.
pub open spec fn style_override_of(entries: Seq<(String, ConfigValue)>, section: Option<Seq<char>>) -> (
    StyleOverride,
    Seq<WarningView>,
) {
    let ox = setting_value(
        table_lookup(entries, "offset_x"@),
        key_label(section, "offset_x"@),
        |v: ConfigValue| i32_setting(v),
    );
    let oy = setting_value(
        table_lookup(entries, "offset_y"@),
        key_label(section, "offset_y"@),
        |v: ConfigValue| i32_setting(v),
    );
    let w = setting_value(
        table_lookup(entries, "width"@),
        key_label(section, "width"@),
        |v: ConfigValue| positive_i32_setting(v),
    );
    let h = setting_value(
        table_lookup(entries, "height"@),
        key_label(section, "height"@),
        |v: ConfigValue| positive_i32_setting(v),
    );
    let op = setting_value(
        table_lookup(entries, "opacity"@),
        key_label(section, "opacity"@),
        |v: ConfigValue| opacity_setting(v),
    );
    (
        StyleOverride { offset_x: ox.0, offset_y: oy.0, width: w.0, height: h.0, opacity: op.0 },
        ox.1 + oy.1 + w.1 + h.1 + op.1,
    )
}

proof fn lemma_push_warning(ws: Seq<ConfigWarning>, w: ConfigWarning)
    ensures
        warnings_view(ws.push(w)) == warnings_view(ws) + seq![w@],
{
    assert(warnings_view(ws.push(w)) =~= warnings_view(ws) + seq![w@]);
}

/// Reads the style keys of a table (`section` names the `[on]`/`[off]`
/// section it came from, `None` for the top level).
pub fn parse_style_override_table(table: &Vec<(String, ConfigValue)>, section: Option<&str>) -> (r: (
    StyleOverride,
    Vec<ConfigWarning>,
))
    ensures
        r.0 == style_override_of(table@, opt_text(section)).0,
        warnings_view(r.1@) == style_override_of(table@, opt_text(section)).1,
{
    let ghost sec = opt_text(section);
    let mut style = StyleOverride::empty();
    let mut warnings: Vec<ConfigWarning> = Vec::new();
    let ghost ox = setting_value(
        table_lookup(table@, "offset_x"@),
        key_label(sec, "offset_x"@),
        |v: ConfigValue| i32_setting(v),
    );
    if let Some(v) = table_get(table, "offset_x") {
        let label = key_label_of(section, "offset_x");
        match parse_i32_value(v, label.as_str()) {
            Ok(x) => {
                style.offset_x = Some(x);
            },
            Err(w) => {
                proof {
                    lemma_push_warning(warnings@, w);
                }
                warnings.push(w);
            },
        }
    }
    assert(warnings_view(warnings@) =~= ox.1);
    let ghost oy = setting_value(
        table_lookup(table@, "offset_y"@),
        key_label(sec, "offset_y"@),
        |v: ConfigValue| i32_setting(v),
    );
    if let Some(v) = table_get(table, "offset_y") {
        let label = key_label_of(section, "offset_y");
        match parse_i32_value(v, label.as_str()) {
            Ok(x) => {
                style.offset_y = Some(x);
            },
            Err(w) => {
                proof {
                    lemma_push_warning(warnings@, w);
                }
                warnings.push(w);
            },
        }
    }
    assert(warnings_view(warnings@) =~= ox.1 + oy.1);
    let ghost w = setting_value(
        table_lookup(table@, "width"@),
        key_label(sec, "width"@),
        |v: ConfigValue| positive_i32_setting(v),
    );
    if let Some(v) = table_get(table, "width") {
        let label = key_label_of(section, "width");
        match parse_positive_i32_value(v, label.as_str()) {
            Ok(x) => {
                style.width = Some(x);
            },
            Err(wa) => {
                proof {
                    lemma_push_warning(warnings@, wa);
                }
                warnings.push(wa);
            },
        }
    }
    assert(warnings_view(warnings@) =~= ox.1 + oy.1 + w.1);
    let ghost h = setting_value(
        table_lookup(table@, "height"@),
        key_label(sec, "height"@),
        |v: ConfigValue| positive_i32_setting(v),
    );
    if let Some(v) = table_get(table, "height") {
        let label = key_label_of(section, "height");
        match parse_positive_i32_value(v, label.as_str()) {
            Ok(x) => {
                style.height = Some(x);
            },
            Err(wa) => {
                proof {
                    lemma_push_warning(warnings@, wa);
                }
                warnings.push(wa);
            },
        }
    }
    assert(warnings_view(warnings@) =~= ox.1 + oy.1 + w.1 + h.1);
    let ghost op = setting_value(
        table_lookup(table@, "opacity"@),
        key_label(sec, "opacity"@),
        |v: ConfigValue| opacity_setting(v),
    );
    if let Some(v) = table_get(table, "opacity") {
        let label = key_label_of(section, "opacity");
        match parse_opacity_value(v, label.as_str()) {
            Ok(x) => {
                style.opacity = Some(x);
            },
            Err(wa) => {
                proof {
                    lemma_push_warning(warnings@, wa);
                }
                warnings.push(wa);
            },
        }
    }
    assert(warnings_view(warnings@) =~= ox.1 + oy.1 + w.1 + h.1 + op.1);
    (style, warnings)
}

/// The file configuration that sets nothing (no file, or a file that could
/// not be read or parsed).
pub open spec fn no_file_config() -> FileConfig {
    FileConfig {
        poll_ms: None,
        top: StyleOverride::nothing(),
        on: StyleOverride::nothing(),
        off: StyleOverride::nothing(),
    }
}

impl FileConfig {
    /// The file configuration that sets nothing.
    pub fn none() -> (r: FileConfig)
        ensures
            r == no_file_config(),
    {
        FileConfig {
            poll_ms: None,
            top: StyleOverride::empty(),
            on: StyleOverride::empty(),
            off: StyleOverride::empty(),
        }
    }

    /// What the parsing of a file guarantees: a polling interval and sizes
    /// above zero.
    pub open spec fn well_formed(self) -> bool {
        &&& (self.poll_ms matches Some(p) ==> p >= 1)
        &&& (self.top.width matches Some(v) ==> v > 0)
        &&& (self.top.height matches Some(v) ==> v > 0)
        &&& (self.on.width matches Some(v) ==> v > 0)
        &&& (self.on.height matches Some(v) ==> v > 0)
        &&& (self.off.width matches Some(v) ==> v > 0)
        &&& (self.off.height matches Some(v) ==> v > 0)
    }
}

/// The layer an `[on]`/`[off]` section gives: nothing when absent, its style
/// keys when it is a table, and a warning when it is anything else.
pub open spec fn section_of(entries: Seq<(String, ConfigValue)>, name: Seq<char>) -> (
    StyleOverride,
    Seq<WarningView>,
) {
    match table_lookup(entries, name) {
        None => (StyleOverride::nothing(), Seq::empty()),
        Some(ConfigValue::Table(inner)) => style_override_of(inner@, Some(name)),
        Some(v) => (
            StyleOverride::nothing(),
            seq![
                WarningView::Value {
                    key: section_label(name),
                    problem: ValueProblem::NotTable(kind_of(v)),
                },
            ],
        ),
    }
}

/// What a parsed configuration table contributes, with the warnings in the
/// order `poll_ms`, top-level style keys, `[on]`, `[off]`.
pub open spec fn file_config_of(entries: Seq<(String, ConfigValue)>) -> (
    FileConfig,
    Seq<WarningView>,
) {
    let poll = setting_value(
        table_lookup(entries, "poll_ms"@),
        "poll_ms"@,
        |v: ConfigValue| poll_ms_setting(v),
    );
    let top = style_override_of(entries, None);
    let on = section_of(entries, "on"@);
    let off = section_of(entries, "off"@);
    (
        FileConfig { poll_ms: poll.0, top: top.0, on: on.0, off: off.0 },
        poll.1 + top.1 + on.1 + off.1,
    )
}

/// Builds the name under which a section is reported.
fn section_label_of(name: &str) -> (r: String)
    ensures
        r@ == section_label(name@),
{
    let mut label = String::from_str("[");
    label.append(name);
    label.append("]");
    label
}

/// Reads the `[on]` or `[off]` section of a table.
pub fn parse_section(table: &Vec<(String, ConfigValue)>, name: &str) -> (r: (
    StyleOverride,
    Vec<ConfigWarning>,
))
    ensures
        r.0 == section_of(table@, name@).0,
        warnings_view(r.1@) == section_of(table@, name@).1,
{
    match table_get(table, name) {
        None => {
            let r = (StyleOverride::empty(), Vec::new());
            assert(warnings_view(r.1@) =~= Seq::<WarningView>::empty());
            r
        },
        Some(ConfigValue::Table(inner)) => parse_style_override_table(inner, Some(name)),
        Some(v) => {
            let mut warnings: Vec<ConfigWarning> = Vec::new();
            let w = ConfigWarning::Value {
                key: section_label_of(name),
                problem: ValueProblem::NotTable(v.kind()),
            };
            proof {
                lemma_push_warning(warnings@, w);
            }
            warnings.push(w);
            assert(warnings_view(warnings@) =~= section_of(table@, name@).1);
            (StyleOverride::empty(), warnings)
        },
    }
}

proof fn lemma_file_config_well_formed(entries: Seq<(String, ConfigValue)>)
    ensures
        file_config_of(entries).0.well_formed(),
{
    let f = file_config_of(entries).0;
    let top = style_override_of(entries, None).0;
    assert(f.top == top);
    match table_lookup(entries, "on"@) {
        Some(ConfigValue::Table(inner)) => {
            assert(f.on == style_override_of(inner@, Some("on"@)).0);
        },
        _ => {},
    }
    match table_lookup(entries, "off"@) {
        Some(ConfigValue::Table(inner)) => {
            assert(f.off == style_override_of(inner@, Some("off"@)).0);
        },
        _ => {},
    }
}

/// What a parsed configuration document contributes: for a table, the
/// settings and warnings `file_config_of` gives; for a parse error, nothing
/// but a warning carrying the parser's message.
pub fn file_config_from_document(doc: Result<Vec<(String, ConfigValue)>, String>) -> (r: (
    FileConfig,
    Vec<ConfigWarning>,
))
    ensures
        r.0.well_formed(),
        doc matches Ok(t) ==> r.0 == file_config_of(t@).0 && warnings_view(r.1@) == file_config_of(
            t@,
        ).1,
        doc matches Err(m) ==> r.0 == no_file_config() && warnings_view(r.1@) == seq![
            WarningView::Unparsable { message: m@ },
        ],
{
    match doc {
        Err(message) => {
            let mut warnings: Vec<ConfigWarning> = Vec::new();
            let ghost m = message@;
            let w = ConfigWarning::Unparsable { message };
            proof {
                lemma_push_warning(warnings@, w);
            }
            warnings.push(w);
            assert(warnings_view(warnings@) =~= seq![WarningView::Unparsable { message: m }]);
            (FileConfig::none(), warnings)
        },
        Ok(table) => {
            proof {
                lemma_file_config_well_formed(table@);
            }
            let mut warnings: Vec<ConfigWarning> = Vec::new();
            let mut poll_ms: Option<u64> = None;
            if let Some(v) = table_get(&table, "poll_ms") {
                match parse_poll_ms_value(v, "poll_ms") {
                    Ok(p) => {
                        poll_ms = Some(p);
                    },
                    Err(w) => {
                        proof {
                            lemma_push_warning(warnings@, w);
                        }
                        warnings.push(w);
                    },
                }
            }
            let (top, mut top_warnings) = parse_style_override_table(&table, None);
            let (on, mut on_warnings) = parse_section(&table, "on");
            let (off, mut off_warnings) = parse_section(&table, "off");
            let ghost (a, b, c) = (top_warnings@, on_warnings@, off_warnings@);
            let ghost w0 = warnings@;
            warnings.append(&mut top_warnings);
            warnings.append(&mut on_warnings);
            warnings.append(&mut off_warnings);
            assert(warnings@ =~= w0 + a + b + c);
            assert(warnings_view(warnings@) =~= warnings_view(w0) + warnings_view(a)
                + warnings_view(b) + warnings_view(c));
            assert(warnings_view(w0) =~= setting_value(
                table_lookup(table@, "poll_ms"@),
                "poll_ms"@,
                |v: ConfigValue| poll_ms_setting(v),
            ).1);
            (FileConfig { poll_ms, top, on, off }, warnings)
        },
    }
}

/// Reads the configuration file's text: parses it as TOML and takes from it
/// what `file_config_from_document` takes; a text that is not TOML sets
/// nothing and gives one warning carrying the parser's message.
pub fn load_file_config(text: &str) -> (r: (FileConfig, Vec<ConfigWarning>))
    ensures
        r.0.well_formed(),
        toml_document(text@) matches Ok(t) ==> r.0 == file_config_of(t@).0 && warnings_view(
            r.1@,
        ) == file_config_of(t@).1,
        toml_document(text@) matches Err(m) ==> r.0 == no_file_config() && warnings_view(r.1@)
            == seq![WarningView::Unparsable { message: m }],
{
    let doc = parse_toml_document(text);
    file_config_from_document(doc)
}

/// A command-line size counts only when it is above zero.
pub open spec fn positive_only(o: Option<i32>) -> Option<i32> {
    match o {
        Some(v) => if v > 0 {
            Some(v)
        } else {
            None
        },
        None => None,
    }
}

/// The layer the command line gives.
pub open spec fn cli_layer(cli: CliArgs) -> StyleOverride {
    StyleOverride {
        offset_x: cli.offset_x,
        offset_y: cli.offset_y,
        width: positive_only(cli.width),
        height: positive_only(cli.height),
        opacity: cli.opacity,
    }
}

/// The polling interval: the command line's (at least 1), else the file's,
/// else 75 ms.
pub open spec fn resolved_poll_ms(cli: Option<u64>, file: Option<u64>) -> u64 {
    match cli {
        Some(v) => if v < 1 {
            1
        } else {
            v
        },
        None => match file {
            Some(f) => f,
            None => DEFAULT_POLL_MS,
        },
    }
}

/// The style both modes start from: the defaults, under the file's top level,
/// under the command line.
pub open spec fn base_style(cli: CliArgs, file: FileConfig) -> OverlayStyle {
    cli_layer(cli).over(file.top.over(default_overlay_style()))
}

/// The resolved configuration: each mode's section over the base style.
pub open spec fn resolved_config(cli: CliArgs, file: FileConfig) -> AppConfig {
    AppConfig {
        poll_ms: resolved_poll_ms(cli.poll_ms, file.poll_ms),
        on_style: file.on.over(base_style(cli, file)),
        off_style: file.off.over(base_style(cli, file)),
    }
}

/// Warnings for command-line sizes that are given but not above zero.
pub open spec fn cli_warnings(cli: CliArgs) -> Seq<WarningView> {
    (if cli.width is Some && positive_only(cli.width) is None {
        seq![WarningView::CliNotPositive { option: CliDimension::Width }]
    } else {
        Seq::empty()
    }) + (if cli.height is Some && positive_only(cli.height) is None {
        seq![WarningView::CliNotPositive { option: CliDimension::Height }]
    } else {
        Seq::empty()
    })
}

/// Resolves the configuration from the command line and what the file gave.
pub fn resolve_app_config(cli: CliArgs, file: FileConfig) -> (r: (AppConfig, Vec<ConfigWarning>))
    ensures
        r.0 == resolved_config(cli, file),
        warnings_view(r.1@) == cli_warnings(cli),
{
    let mut poll_ms = match file.poll_ms {
        Some(v) => v,
        None => DEFAULT_POLL_MS,
    };
    if let Some(v) = cli.poll_ms {
        poll_ms = if v < 1 {
            1
        } else {
            v
        };
    }
    let mut base = default_style();
    base = file.top.apply_to(base);
    let cli_top = StyleOverride {
        offset_x: cli.offset_x,
        offset_y: cli.offset_y,
        width: match cli.width {
            Some(v) => if v > 0 {
                Some(v)
            } else {
                None
            },
            None => None,
        },
        height: match cli.height {
            Some(v) => if v > 0 {
                Some(v)
            } else {
                None
            },
            None => None,
        },
        opacity: cli.opacity,
    };
    let mut warnings: Vec<ConfigWarning> = Vec::new();
    if cli.width.is_some() && cli_top.width.is_none() {
        let w = ConfigWarning::CliNotPositive { option: CliDimension::Width };
        proof {
            lemma_push_warning(warnings@, w);
        }
        warnings.push(w);
    }
    if cli.height.is_some() && cli_top.height.is_none() {
        let w = ConfigWarning::CliNotPositive { option: CliDimension::Height };
        proof {
            lemma_push_warning(warnings@, w);
        }
        warnings.push(w);
    }
    assert(warnings_view(warnings@) =~= cli_warnings(cli));
    base = cli_top.apply_to(base);
    let on_style = file.on.apply_to(base);
    let off_style = file.off.apply_to(base);
    (AppConfig { poll_ms, on_style, off_style }, warnings)
}

/// The first present value of three layers, else the default.
pub open spec fn first_present<T>(a: Option<T>, b: Option<T>, c: Option<T>, default: T) -> T {
    layered(a, layered(b, layered(c, default)))
}

/// Priority of the configuration sources: for every style key of either mode,
/// the mode's `[on]`/`[off]` section wins over the command line, the command
/// line wins over the top level of the file, and the top level wins over the
/// hard-coded default.
pub proof fn lemma_config_priority(cli: CliArgs, file: FileConfig)
    ensures
        ({
            let r = resolved_config(cli, file);
            &&& r.on_style.offset_x == first_present(
                file.on.offset_x,
                cli.offset_x,
                file.top.offset_x,
                DEFAULT_OFFSET_X,
            )
            &&& r.on_style.offset_y == first_present(
                file.on.offset_y,
                cli.offset_y,
                file.top.offset_y,
                DEFAULT_OFFSET_Y,
            )
            &&& r.on_style.width == first_present(
                file.on.width,
                positive_only(cli.width),
                file.top.width,
                DEFAULT_WIDTH,
            )
            &&& r.on_style.height == first_present(
                file.on.height,
                positive_only(cli.height),
                file.top.height,
                DEFAULT_HEIGHT,
            )
            &&& r.on_style.opacity == first_present(
                file.on.opacity,
                cli.opacity,
                file.top.opacity,
                Opacity::FloatBits(DEFAULT_OPACITY_BITS),
            )
            &&& r.off_style.offset_x == first_present(
                file.off.offset_x,
                cli.offset_x,
                file.top.offset_x,
                DEFAULT_OFFSET_X,
            )
            &&& r.off_style.offset_y == first_present(
                file.off.offset_y,
                cli.offset_y,
                file.top.offset_y,
                DEFAULT_OFFSET_Y,
            )
            &&& r.off_style.width == first_present(
                file.off.width,
                positive_only(cli.width),
                file.top.width,
                DEFAULT_WIDTH,
            )
            &&& r.off_style.height == first_present(
                file.off.height,
                positive_only(cli.height),
                file.top.height,
                DEFAULT_HEIGHT,
            )
            &&& r.off_style.opacity == first_present(
                file.off.opacity,
                cli.opacity,
                file.top.opacity,
                Opacity::FloatBits(DEFAULT_OPACITY_BITS),
            )
            &&& r.poll_ms == first_present(
                match cli.poll_ms {
                    Some(v) => Some(if v < 1 {
                        1
                    } else {
                        v
                    }),
                    None => None,
                },
                file.poll_ms,
                None,
                DEFAULT_POLL_MS,
            )
        }),
{
}

/// The two modes share every style key that neither section sets.
pub proof fn lemma_modes_differ_only_by_sections(cli: CliArgs, file: FileConfig)
    ensures
        ({
            let r = resolved_config(cli, file);
            &&& (file.on.offset_x is None && file.off.offset_x is None) ==> r.on_style.offset_x
                == r.off_style.offset_x
            &&& (file.on.offset_y is None && file.off.offset_y is None) ==> r.on_style.offset_y
                == r.off_style.offset_y
            &&& (file.on.width is None && file.off.width is None) ==> r.on_style.width
                == r.off_style.width
            &&& (file.on.height is None && file.off.height is None) ==> r.on_style.height
                == r.off_style.height
            &&& (file.on.opacity is None && file.off.opacity is None) ==> r.on_style.opacity
                == r.off_style.opacity
        }),
{
}

/// With a file configuration as parsing gives it, the resolved polling
/// interval is at least 1 ms and both modes have a size above zero.
pub proof fn lemma_resolved_sizes_positive(cli: CliArgs, file: FileConfig)
    requires
        file.well_formed(),
    ensures
        ({
            let r = resolved_config(cli, file);
            &&& r.poll_ms >= 1
            &&& r.on_style.width > 0
            &&& r.on_style.height > 0
            &&& r.off_style.width > 0
            &&& r.off_style.height > 0
        }),
{
}

/// A layer that sets nothing leaves a style as it is, and putting a layer over
/// a style twice is putting it once.
pub proof fn lemma_layer_laws(layer: StyleOverride, style: OverlayStyle)
    ensures
        StyleOverride::nothing().over(style) == style,
        layer.over(layer.over(style)) == layer.over(style),
{
}

/// `base` with the relative component `component` appended, as
/// `PathBuf::join` does on Unix: a `/` goes between them unless `base` is
/// empty or already ends with one.
pub open spec fn path_join(base: Seq<char>, component: Seq<char>) -> Seq<char> {
    if base.len() > 0 && base.last() != '/' {
        base + "/"@ + component
    } else {
        base + component
    }
}

/// Appends a relative path component.
fn push_component(path: &mut String, component: &str)
    ensures
        final(path)@ == path_join(old(path)@, component@),
{
    let n = path.as_str().unicode_len();
    if n > 0 && path.as_str().get_char(n - 1) != '/' {
        path.append("/");
    }
    path.append(component);
}

/// The configuration file: `<home>/.config/ime-cursor-indicator/config.toml`,
/// with `/root` when `HOME` is unset.
pub open spec fn config_file_path_of(home: Option<Seq<char>>) -> Seq<char> {
    let h = match home {
        Some(h) => h,
        None => "/root"@,
    };
    path_join(path_join(path_join(h, ".config"@), "ime-cursor-indicator"@), "config.toml"@)
}

/// The path of the configuration file for the given `HOME`.
pub fn config_file_path(home: Option<&str>) -> (r: String)
    ensures
        r@ == config_file_path_of(opt_text(home)),
{
    let mut path = match home {
        Some(h) => h.to_owned(),
        None => "/root".to_owned(),
    };
    push_component(&mut path, ".config");
    push_component(&mut path, "ime-cursor-indicator");
    push_component(&mut path, "config.toml");
    path
}

/// The integer a table holds under a key, if it holds an integer there.
pub open spec fn integer_under(entries: Seq<(String, ConfigValue)>, key: Seq<char>) -> Option<int> {
    match table_lookup(entries, key) {
        Some(ConfigValue::Integer(n)) => Some(n as int),
        _ => None,
    }
}

/// A style layer takes from a table exactly what the table says: each of
/// `offset_x`/`offset_y` is set to the table's integer under that key when it
/// fits in `i32`; each of `width`/`height` to the table's integer when it
/// also is above zero; `opacity` to the table's float or integer; every other
/// field is unset.
pub open spec fn layer_read_from(layer: StyleOverride, entries: Seq<(String, ConfigValue)>) -> bool {
    &&& field_reads_integer(integer_under(entries, "offset_x"@), layer.offset_x, false)
    &&& field_reads_integer(integer_under(entries, "offset_y"@), layer.offset_y, false)
    &&& field_reads_integer(integer_under(entries, "width"@), layer.width, true)
    &&& field_reads_integer(integer_under(entries, "height"@), layer.height, true)
    &&& field_reads_opacity(table_lookup(entries, "opacity"@), layer.opacity)
}

/// An `i32` field read from the integer `found` (above zero only, when
/// `positive`): set to it exactly when it is acceptable, and unset otherwise.
pub open spec fn field_reads_integer(found: Option<int>, field: Option<i32>, positive: bool) -> bool {
    match found {
        Some(n) => if i32::MIN <= n <= i32::MAX && (!positive || n > 0) {
            field == Some(n as i32)
        } else {
            field is None
        },
        None => field is None,
    }
}

/// The opacity read from the value `found`: a float or an integer is taken
/// as it is; anything else, or nothing, leaves the opacity unset.
pub open spec fn field_reads_opacity(found: Option<ConfigValue>, field: Option<Opacity>) -> bool {
    match found {
        Some(ConfigValue::Float(b)) => field == Some(Opacity::FloatBits(b)),
        Some(ConfigValue::Integer(n)) => field == Some(Opacity::Integer(n)),
        _ => field is None,
    }
}

/// The file configuration takes from a parsed table exactly what it says:
/// `poll_ms` is the table's integer under `poll_ms` when it is above zero
/// (and set only then); the top-level layer reads the top-level keys; the
/// `[on]` and `[off]` layers read the keys of those sections when they are
/// tables, and set nothing otherwise.
pub proof fn lemma_file_config_reads_table(entries: Seq<(String, ConfigValue)>)
    ensures
        ({
            let f = file_config_of(entries).0;
            &&& f.poll_ms == match integer_under(entries, "poll_ms"@) {
                Some(n) => if n > 0 {
                    Some(n as u64)
                } else {
                    None
                },
                None => None,
            }
            &&& layer_read_from(f.top, entries)
            &&& (table_lookup(entries, "on"@) matches Some(ConfigValue::Table(inner))
                ==> layer_read_from(f.on, inner@))
            &&& (!(table_lookup(entries, "on"@) is Some && table_lookup(entries, "on"@)->0 is Table)
                ==> f.on == StyleOverride::nothing())
            &&& (table_lookup(entries, "off"@) matches Some(ConfigValue::Table(inner))
                ==> layer_read_from(f.off, inner@))
            &&& (!(table_lookup(entries, "off"@) is Some && table_lookup(entries, "off"@)->0 is Table)
                ==> f.off == StyleOverride::nothing())
        }),
{
    lemma_layer_read_from(entries, None);
    match table_lookup(entries, "on"@) {
        Some(ConfigValue::Table(inner)) => {
            lemma_layer_read_from(inner@, Some("on"@));
        },
        _ => {},
    }
    match table_lookup(entries, "off"@) {
        Some(ConfigValue::Table(inner)) => {
            lemma_layer_read_from(inner@, Some("off"@));
        },
        _ => {},
    }
}

/// Reading a table's style keys, under whatever section name, gives the layer
/// the table says.
pub proof fn lemma_layer_read_from(entries: Seq<(String, ConfigValue)>, section: Option<Seq<char>>)
    ensures
        layer_read_from(style_override_of(entries, section).0, entries),
{
}

} // verus!
