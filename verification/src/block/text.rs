//! Styled text: a content string with optional style attributes.

use crate::block::options::{
    entries, entry, entry_string, led, lemma_entries_around, lemma_entries_of_none_set,
    lemma_entries_of_some_set, lemma_entries_push, lemma_entries_split, lemma_led_concat,
    lemma_led_push, none_set, push_led, quoted_string, unset, AttrValue,
};
use crate::escape::{push_quoted, quoted};
use crate::strings::{texts, trim, trimmed};
use vstd::prelude::*;

verus! {

/// How many style attributes a text has.
pub const TEXT_ATTRIBUTES: usize = 28;

/// The slot of the attribute `fill`.
pub const FILL: usize = 0;

/// The slot of the attribute `lang`.
pub const LANG: usize = 1;

/// The slot of the attribute `size`.
pub const SIZE: usize = 2;

/// The slot of the attribute `font`.
pub const FONT: usize = 3;

/// The slot of the attribute `style`.
pub const STYLE: usize = 4;

/// The slot of the attribute `weight`.
pub const WEIGHT: usize = 5;

/// The slot of the attribute `tracking`.
pub const TRACKING: usize = 6;

/// The slot of the attribute `stretch`.
pub const STRETCH: usize = 7;

/// The slot of the attribute `variant`.
pub const VARIANT: usize = 8;

/// The slot of the attribute `baseline`.
pub const BASELINE: usize = 9;

/// The slot of the attribute `underline`.
pub const UNDERLINE: usize = 10;

/// The slot of the attribute `overline`.
pub const OVERLINE: usize = 11;

/// The slot of the attribute `line_through`.
pub const LINE_THROUGH: usize = 12;

/// The slot of the attribute `outline`.
pub const OUTLINE: usize = 13;

/// The slot of the attribute `shadow`.
pub const SHADOW: usize = 14;

/// The slot of the attribute `offset`.
pub const OFFSET: usize = 15;

/// The slot of the attribute `rotate`.
pub const ROTATE: usize = 16;

/// The slot of the attribute `scale`.
pub const SCALE: usize = 17;

/// The slot of the attribute `dir`.
pub const DIR: usize = 18;

/// The slot of the attribute `writing_mode`.
pub const WRITING_MODE: usize = 19;

/// The slot of the attribute `region`.
pub const REGION: usize = 20;

/// The slot of the attribute `justification`.
pub const JUSTIFICATION: usize = 21;

/// The slot of the attribute `align`.
pub const ALIGN: usize = 22;

/// The slot of the attribute `first_line_indent`.
pub const FIRST_LINE_INDENT: usize = 23;

/// The slot of the attribute `hanging_indent`.
pub const HANGING_INDENT: usize = 24;

/// The slot of the attribute `leading`.
pub const LEADING: usize = 25;

/// The slot of the attribute `spacing`.
pub const SPACING: usize = 26;

/// The slot of the attribute `parbreak`.
pub const PARBREAK: usize = 27;

/// The names of the style attributes, in the order in which they are
/// declared and written out.
pub open spec fn text_attribute_names() -> Seq<Seq<char>> {
    seq![
        "fill"@,
        "lang"@,
        "size"@,
        "font"@,
        "style"@,
        "weight"@,
        "tracking"@,
        "stretch"@,
        "variant"@,
        "baseline"@,
        "underline"@,
        "overline"@,
        "line_through"@,
        "outline"@,
        "shadow"@,
        "offset"@,
        "rotate"@,
        "scale"@,
        "dir"@,
        "writing_mode"@,
        "region"@,
        "justification"@,
        "align"@,
        "first_line_indent"@,
        "hanging_indent"@,
        "leading"@,
        "spacing"@,
        "parbreak"@,
    ]
}

/// The value of a style attribute.
#[derive(Debug, Clone, PartialEq, Eq, PartialOrd, Ord, Hash)]
pub enum TextOptionValue {
    /// A fragment of markup that is written as it stands.
    Raw(String),
    /// A text that is written as a quoted string.
    Str(String),
}

impl View for TextOptionValue {
    type V = AttrValue;

    open spec fn view(&self) -> AttrValue {
        match self {
            TextOptionValue::Raw(value) => AttrValue::Raw(value@),
            TextOptionValue::Str(value) => AttrValue::Quoted(value@),
        }
    }
}

impl TextOptionValue {
    /// A value that is written as it stands.
    pub fn raw(value: &str) -> (option: Self)
        ensures
            option@ == AttrValue::Raw(value@),
    {
        TextOptionValue::Raw(value.to_owned())
    }

    /// A value that is written as a quoted string.
    pub fn str(value: &str) -> (option: Self)
        ensures
            option@ == AttrValue::Quoted(value@),
    {
        TextOptionValue::Str(value.to_owned())
    }

    /// The value as it stands in the markup.
    pub fn render(&self) -> (out: String)
        ensures
            out@ == self@.markup(),
    {
        match self {
            TextOptionValue::Raw(value) => value.clone(),
            TextOptionValue::Str(value) => quoted_string(value.as_str()),
        }
    }
}

/// What a slot of the options holds.
pub open spec fn slot_of(option: Option<TextOptionValue>) -> Option<AttrValue> {
    match option {
        Some(value) => Some(value@),
        None => None,
    }
}

/// The style attributes of a text, each of them set or not.
#[derive(Debug, Clone, PartialEq, Eq, PartialOrd, Ord, Hash)]
pub struct TextOptions {
    fill: Option<TextOptionValue>,
    lang: Option<TextOptionValue>,
    size: Option<TextOptionValue>,
    font: Option<TextOptionValue>,
    style: Option<TextOptionValue>,
    weight: Option<TextOptionValue>,
    tracking: Option<TextOptionValue>,
    stretch: Option<TextOptionValue>,
    variant: Option<TextOptionValue>,
    baseline: Option<TextOptionValue>,
    underline: Option<TextOptionValue>,
    overline: Option<TextOptionValue>,
    line_through: Option<TextOptionValue>,
    outline: Option<TextOptionValue>,
    shadow: Option<TextOptionValue>,
    offset: Option<TextOptionValue>,
    rotate: Option<TextOptionValue>,
    scale: Option<TextOptionValue>,
    dir: Option<TextOptionValue>,
    writing_mode: Option<TextOptionValue>,
    region: Option<TextOptionValue>,
    justification: Option<TextOptionValue>,
    align: Option<TextOptionValue>,
    first_line_indent: Option<TextOptionValue>,
    hanging_indent: Option<TextOptionValue>,
    leading: Option<TextOptionValue>,
    spacing: Option<TextOptionValue>,
    parbreak: Option<TextOptionValue>,
}

impl View for TextOptions {
    type V = Seq<Option<AttrValue>>;

    /// One slot for each attribute, in declaration order.
    closed spec fn view(&self) -> Seq<Option<AttrValue>> {
        seq![
            slot_of(self.fill),
            slot_of(self.lang),
            slot_of(self.size),
            slot_of(self.font),
            slot_of(self.style),
            slot_of(self.weight),
            slot_of(self.tracking),
            slot_of(self.stretch),
            slot_of(self.variant),
            slot_of(self.baseline),
            slot_of(self.underline),
            slot_of(self.overline),
            slot_of(self.line_through),
            slot_of(self.outline),
            slot_of(self.shadow),
            slot_of(self.offset),
            slot_of(self.rotate),
            slot_of(self.scale),
            slot_of(self.dir),
            slot_of(self.writing_mode),
            slot_of(self.region),
            slot_of(self.justification),
            slot_of(self.align),
            slot_of(self.first_line_indent),
            slot_of(self.hanging_indent),
            slot_of(self.leading),
            slot_of(self.spacing),
            slot_of(self.parbreak),
        ]
    }
}

impl Default for TextOptions {
    /// Options with no attribute set.
    fn default() -> (options: Self)
        ensures
            options@ == unset(TEXT_ATTRIBUTES as nat),
    {
        TextOptions {
            fill: None,
            lang: None,
            size: None,
            font: None,
            style: None,
            weight: None,
            tracking: None,
            stretch: None,
            variant: None,
            baseline: None,
            underline: None,
            overline: None,
            line_through: None,
            outline: None,
            shadow: None,
            offset: None,
            rotate: None,
            scale: None,
            dir: None,
            writing_mode: None,
            region: None,
            justification: None,
            align: None,
            first_line_indent: None,
            hanging_indent: None,
            leading: None,
            spacing: None,
            parbreak: None,
        }
    }
}

impl TextOptions {
    /// Sets the fill colour, written as it stands.
    pub fn fill(self, color: &str) -> (options: Self)
        ensures
            options@ == self@.update(FILL as int, Some(AttrValue::Raw(color@))),
    {
        let mut options = self;
        options.fill = Some(TextOptionValue::raw(color));
        options
    }

    /// Sets the language, written as a quoted string.
    pub fn lang(self, lang: &str) -> (options: Self)
        ensures
            options@ == self@.update(LANG as int, Some(AttrValue::Quoted(lang@))),
    {
        let mut options = self;
        options.lang = Some(TextOptionValue::str(lang));
        options
    }

    /// Sets the font size, written as it stands.
    pub fn size(self, size: &str) -> (options: Self)
        ensures
            options@ == self@.update(SIZE as int, Some(AttrValue::Raw(size@))),
    {
        let mut options = self;
        options.size = Some(TextOptionValue::raw(size));
        options
    }

    /// Sets the font family, written as a quoted string.
    pub fn font(self, font: &str) -> (options: Self)
        ensures
            options@ == self@.update(FONT as int, Some(AttrValue::Quoted(font@))),
    {
        let mut options = self;
        options.font = Some(TextOptionValue::str(font));
        options
    }

    /// Sets the font style, written as it stands.
    pub fn style(self, style: &str) -> (options: Self)
        ensures
            options@ == self@.update(STYLE as int, Some(AttrValue::Raw(style@))),
    {
        let mut options = self;
        options.style = Some(TextOptionValue::raw(style));
        options
    }

    /// Sets the font weight, written as it stands.
    pub fn weight(self, weight: &str) -> (options: Self)
        ensures
            options@ == self@.update(WEIGHT as int, Some(AttrValue::Raw(weight@))),
    {
        let mut options = self;
        options.weight = Some(TextOptionValue::raw(weight));
        options
    }

    /// Sets the tracking, written as it stands.
    pub fn tracking(self, tracking: &str) -> (options: Self)
        ensures
            options@ == self@.update(TRACKING as int, Some(AttrValue::Raw(tracking@))),
    {
        let mut options = self;
        options.tracking = Some(TextOptionValue::raw(tracking));
        options
    }

    /// Sets the font stretch, written as it stands.
    pub fn stretch(self, stretch: &str) -> (options: Self)
        ensures
            options@ == self@.update(STRETCH as int, Some(AttrValue::Raw(stretch@))),
    {
        let mut options = self;
        options.stretch = Some(TextOptionValue::raw(stretch));
        options
    }

    /// Sets the font variant, written as it stands.
    pub fn variant(self, variant: &str) -> (options: Self)
        ensures
            options@ == self@.update(VARIANT as int, Some(AttrValue::Raw(variant@))),
    {
        let mut options = self;
        options.variant = Some(TextOptionValue::raw(variant));
        options
    }

    /// Sets the baseline shift, written as it stands.
    pub fn baseline(self, baseline: &str) -> (options: Self)
        ensures
            options@ == self@.update(BASELINE as int, Some(AttrValue::Raw(baseline@))),
    {
        let mut options = self;
        options.baseline = Some(TextOptionValue::raw(baseline));
        options
    }

    /// Sets the underline, written as it stands.
    pub fn underline(self, underline: &str) -> (options: Self)
        ensures
            options@ == self@.update(UNDERLINE as int, Some(AttrValue::Raw(underline@))),
    {
        let mut options = self;
        options.underline = Some(TextOptionValue::raw(underline));
        options
    }

    /// Sets the overline, written as it stands.
    pub fn overline(self, overline: &str) -> (options: Self)
        ensures
            options@ == self@.update(OVERLINE as int, Some(AttrValue::Raw(overline@))),
    {
        let mut options = self;
        options.overline = Some(TextOptionValue::raw(overline));
        options
    }

    /// Sets the strike-through line, written as it stands.
    pub fn line_through(self, line_through: &str) -> (options: Self)
        ensures
            options@ == self@.update(LINE_THROUGH as int, Some(AttrValue::Raw(line_through@))),
    {
        let mut options = self;
        options.line_through = Some(TextOptionValue::raw(line_through));
        options
    }

    /// Sets the outline, written as it stands.
    pub fn outline(self, outline: &str) -> (options: Self)
        ensures
            options@ == self@.update(OUTLINE as int, Some(AttrValue::Raw(outline@))),
    {
        let mut options = self;
        options.outline = Some(TextOptionValue::raw(outline));
        options
    }

    /// Sets the shadow, written as it stands.
    pub fn shadow(self, shadow: &str) -> (options: Self)
        ensures
            options@ == self@.update(SHADOW as int, Some(AttrValue::Raw(shadow@))),
    {
        let mut options = self;
        options.shadow = Some(TextOptionValue::raw(shadow));
        options
    }

    /// Sets the offset, written as it stands.
    pub fn offset(self, offset: &str) -> (options: Self)
        ensures
            options@ == self@.update(OFFSET as int, Some(AttrValue::Raw(offset@))),
    {
        let mut options = self;
        options.offset = Some(TextOptionValue::raw(offset));
        options
    }

    /// Sets the rotation, written as it stands.
    pub fn rotate(self, rotate: &str) -> (options: Self)
        ensures
            options@ == self@.update(ROTATE as int, Some(AttrValue::Raw(rotate@))),
    {
        let mut options = self;
        options.rotate = Some(TextOptionValue::raw(rotate));
        options
    }

    /// Sets the scale, written as it stands.
    pub fn scale(self, scale: &str) -> (options: Self)
        ensures
            options@ == self@.update(SCALE as int, Some(AttrValue::Raw(scale@))),
    {
        let mut options = self;
        options.scale = Some(TextOptionValue::raw(scale));
        options
    }

    /// Sets the text direction, written as it stands.
    pub fn dir(self, dir: &str) -> (options: Self)
        ensures
            options@ == self@.update(DIR as int, Some(AttrValue::Raw(dir@))),
    {
        let mut options = self;
        options.dir = Some(TextOptionValue::raw(dir));
        options
    }

    /// Sets the writing mode, written as it stands.
    pub fn writing_mode(self, mode: &str) -> (options: Self)
        ensures
            options@ == self@.update(WRITING_MODE as int, Some(AttrValue::Raw(mode@))),
    {
        let mut options = self;
        options.writing_mode = Some(TextOptionValue::raw(mode));
        options
    }

    /// Sets the region, written as it stands.
    pub fn region(self, region: &str) -> (options: Self)
        ensures
            options@ == self@.update(REGION as int, Some(AttrValue::Raw(region@))),
    {
        let mut options = self;
        options.region = Some(TextOptionValue::raw(region));
        options
    }

    /// Sets the justification, written as it stands.
    pub fn justification(self, justification: &str) -> (options: Self)
        ensures
            options@ == self@.update(JUSTIFICATION as int, Some(AttrValue::Raw(justification@))),
    {
        let mut options = self;
        options.justification = Some(TextOptionValue::raw(justification));
        options
    }

    /// Sets the alignment, written as it stands.
    pub fn align(self, align: &str) -> (options: Self)
        ensures
            options@ == self@.update(ALIGN as int, Some(AttrValue::Raw(align@))),
    {
        let mut options = self;
        options.align = Some(TextOptionValue::raw(align));
        options
    }

    /// Sets the indent of the first line, written as it stands.
    pub fn first_line_indent(self, indent: &str) -> (options: Self)
        ensures
            options@ == self@.update(FIRST_LINE_INDENT as int, Some(AttrValue::Raw(indent@))),
    {
        let mut options = self;
        options.first_line_indent = Some(TextOptionValue::raw(indent));
        options
    }

    /// Sets the hanging indent, written as it stands.
    pub fn hanging_indent(self, indent: &str) -> (options: Self)
        ensures
            options@ == self@.update(HANGING_INDENT as int, Some(AttrValue::Raw(indent@))),
    {
        let mut options = self;
        options.hanging_indent = Some(TextOptionValue::raw(indent));
        options
    }

    /// Sets the leading, written as it stands.
    pub fn leading(self, leading: &str) -> (options: Self)
        ensures
            options@ == self@.update(LEADING as int, Some(AttrValue::Raw(leading@))),
    {
        let mut options = self;
        options.leading = Some(TextOptionValue::raw(leading));
        options
    }

    /// Sets the spacing, written as it stands.
    pub fn spacing(self, spacing: &str) -> (options: Self)
        ensures
            options@ == self@.update(SPACING as int, Some(AttrValue::Raw(spacing@))),
    {
        let mut options = self;
        options.spacing = Some(TextOptionValue::raw(spacing));
        options
    }

    /// Sets the paragraph break, written as it stands.
    pub fn parbreak(self, parbreak: &str) -> (options: Self)
        ensures
            options@ == self@.update(PARBREAK as int, Some(AttrValue::Raw(parbreak@))),
    {
        let mut options = self;
        options.parbreak = Some(TextOptionValue::raw(parbreak));
        options
    }

    /// The options always have one slot for each attribute.
    pub proof fn lemma_slots(&self)
        ensures
            self@.len() == TEXT_ATTRIBUTES,
    {
    }

    /// The entries of the attributes that are set, in declaration order, each
    /// as it stands in the markup.
    pub fn entries(&self) -> (out: Vec<String>)
        ensures
            texts(out@) == entries(text_attribute_names(), self@),
    {
        let names: [&str; TEXT_ATTRIBUTES] = [
            "fill",
            "lang",
            "size",
            "font",
            "style",
            "weight",
            "tracking",
            "stretch",
            "variant",
            "baseline",
            "underline",
            "overline",
            "line_through",
            "outline",
            "shadow",
            "offset",
            "rotate",
            "scale",
            "dir",
            "writing_mode",
            "region",
            "justification",
            "align",
            "first_line_indent",
            "hanging_indent",
            "leading",
            "spacing",
            "parbreak",
        ];
        let values: [&Option<TextOptionValue>; TEXT_ATTRIBUTES] = [
            &self.fill,
            &self.lang,
            &self.size,
            &self.font,
            &self.style,
            &self.weight,
            &self.tracking,
            &self.stretch,
            &self.variant,
            &self.baseline,
            &self.underline,
            &self.overline,
            &self.line_through,
            &self.outline,
            &self.shadow,
            &self.offset,
            &self.rotate,
            &self.scale,
            &self.dir,
            &self.writing_mode,
            &self.region,
            &self.justification,
            &self.align,
            &self.first_line_indent,
            &self.hanging_indent,
            &self.leading,
            &self.spacing,
            &self.parbreak,
        ];
        let ghost all_names = text_attribute_names();
        let ghost slots = self@;
        assert(all_names =~= Seq::new(TEXT_ATTRIBUTES as nat, |k: int| names@[k]@));
        assert(slots =~= Seq::new(TEXT_ATTRIBUTES as nat, |k: int| slot_of(*values@[k])));
        let mut out: Vec<String> = Vec::new();
        let mut i: usize = 0;
        while i < TEXT_ATTRIBUTES
            invariant
                i <= TEXT_ATTRIBUTES,
                all_names == text_attribute_names(),
                slots == self@,
                all_names == Seq::new(TEXT_ATTRIBUTES as nat, |k: int| names@[k]@),
                slots == Seq::new(TEXT_ATTRIBUTES as nat, |k: int| slot_of(*values@[k])),
                texts(out@) == entries(all_names.take(i as int), slots.take(i as int)),
            decreases TEXT_ATTRIBUTES - i,
        {
            proof {
                lemma_entries_push(
                    all_names.take(i as int),
                    slots.take(i as int),
                    all_names[i as int],
                    slots[i as int],
                );
                assert(all_names.take(i as int).push(all_names[i as int]) =~= all_names.take(
                    i + 1,
                ));
                assert(slots.take(i as int).push(slots[i as int]) =~= slots.take(i + 1));
            }
            match values[i] {
                Some(value) => {
                    let markup = value.render();
                    let ghost before = texts(out@);
                    out.push(entry_string(names[i], markup.as_str()));
                    assert(texts(out@) =~= before.push(out@.last()@));
                },
                None => {},
            }
            i = i + 1;
        }
        assert(all_names.take(TEXT_ATTRIBUTES as int) =~= all_names);
        assert(slots.take(TEXT_ATTRIBUTES as int) =~= slots);
        out
    }
}

/// A text as the markup sees it.
#[verifier::ext_equal]
pub struct TextView {
    /// The content, as it was given.
    pub content: Seq<char>,
    /// One slot for each style attribute, in declaration order.
    pub options: Seq<Option<AttrValue>>,
}

impl TextView {
    /// The same text with the attribute of `slot` set to `value`.
    pub open spec fn with(self, slot: int, value: AttrValue) -> TextView {
        TextView { content: self.content, options: self.options.update(slot, Some(value)) }
    }

    /// A text with no attribute set.
    pub open spec fn plain(content: Seq<char>) -> TextView {
        TextView { content, options: unset(TEXT_ATTRIBUTES as nat) }
    }

    /// The markup of the text.  Without attributes it is the trimmed content
    /// as it stands; with attributes it is a call of `text` with the trimmed
    /// content as a quoted string and then each attribute that is set, in
    /// declaration order.
    pub open spec fn markup(self) -> Seq<char> {
        let set = entries(text_attribute_names(), self.options);
        if set.len() == 0 {
            trimmed(self.content)
        } else {
            "#text("@ + quoted(trimmed(self.content)) + led(set, ", "@) + ")"@
        }
    }
}

/// A text without attributes is written as its trimmed content and nothing
/// else.
pub proof fn lemma_plain_text_markup(text: TextView)
    requires
        none_set(text.options),
    ensures
        text.markup() == trimmed(text.content),
{
    lemma_entries_of_none_set(text_attribute_names(), text.options);
}

/// A text with at least one attribute set is written as a call of `text`:
/// the trimmed content as a quoted string, then every attribute that is
/// set.
pub proof fn lemma_styled_text_markup(text: TextView, slot: int)
    requires
        text.options.len() == TEXT_ATTRIBUTES,
        0 <= slot < TEXT_ATTRIBUTES,
        text.options[slot] is Some,
    ensures
        text.markup() == "#text("@ + quoted(trimmed(text.content)) + led(
            entries(text_attribute_names(), text.options),
            ", "@,
        ) + ")"@,
{
    lemma_entries_of_some_set(text_attribute_names(), text.options, slot);
}

/// The attributes are written in declaration order, whatever the order in
/// which they were set: for every slot `k`, what is written for the
/// attributes before slot `k` stands before what is written for the
/// attributes from slot `k` on.
pub proof fn lemma_attributes_in_declaration_order(text: TextView, k: int)
    requires
        text.options.len() == TEXT_ATTRIBUTES,
        0 <= k <= TEXT_ATTRIBUTES,
    ensures
        led(entries(text_attribute_names(), text.options), ", "@) == led(
            entries(text_attribute_names().take(k), text.options.take(k)),
            ", "@,
        ) + led(entries(text_attribute_names().skip(k), text.options.skip(k)), ", "@),
{
    lemma_entries_split(text_attribute_names(), text.options, k);
    lemma_led_concat(
        entries(text_attribute_names().take(k), text.options.take(k)),
        entries(text_attribute_names().skip(k), text.options.skip(k)),
        ", "@,
    );
}

/// Of two attributes that are set, the one that is declared first is written
/// first: the markup is the opening of the call, what is written for the
/// attributes before the first of the two, the first, what is written for the
/// attributes between them, the second, and what is written for the rest.
pub proof fn lemma_earlier_attribute_first(text: TextView, first: int, second: int)
    requires
        text.options.len() == TEXT_ATTRIBUTES,
        0 <= first < second < TEXT_ATTRIBUTES,
        text.options[first] is Some,
        text.options[second] is Some,
    ensures
        ({
            let names = text_attribute_names();
            let slots = text.options;
            text.markup() == "#text("@ + quoted(trimmed(text.content)) + led(
                entries(names.take(first), slots.take(first)),
                ", "@,
            ) + ", "@ + entry(names[first], slots[first]->0) + led(
                entries(names.subrange(first + 1, second), slots.subrange(first + 1, second)),
                ", "@,
            ) + ", "@ + entry(names[second], slots[second]->0) + led(
                entries(names.skip(second + 1), slots.skip(second + 1)),
                ", "@,
            ) + ")"@
        }),
{
    let names = text_attribute_names();
    let slots = text.options;
    let lead = ", "@;
    lemma_styled_text_markup(text, first);
    let head = entries(names.take(first), slots.take(first));
    let one = entry(names[first], slots[first]->0);
    let rest_names = names.skip(first + 1);
    let rest_slots = slots.skip(first + 1);
    lemma_entries_around(names, slots, first);
    let at = second - first - 1;
    assert(rest_slots[at] == slots[second]);
    assert(rest_names[at] == names[second]);
    lemma_entries_around(rest_names, rest_slots, at);
    assert(rest_names.take(at) =~= names.subrange(first + 1, second));
    assert(rest_slots.take(at) =~= slots.subrange(first + 1, second));
    assert(rest_names.skip(at + 1) =~= names.skip(second + 1));
    assert(rest_slots.skip(at + 1) =~= slots.skip(second + 1));
    let middle = entries(names.subrange(first + 1, second), slots.subrange(first + 1, second));
    let two = entry(names[second], slots[second]->0);
    let tail = entries(names.skip(second + 1), slots.skip(second + 1));
    lemma_led_push(head, lead, one);
    lemma_led_push(middle, lead, two);
    lemma_led_concat(middle.push(two), tail, lead);
    lemma_led_concat(head.push(one), middle.push(two) + tail, lead);
    assert(led(entries(names, slots), lead) =~= led(head, lead) + lead + one + led(middle, lead)
        + lead + two + led(tail, lead));
}

/// Setting two different attributes gives the same text, and so the same
/// markup, in either order.
pub proof fn lemma_setting_order_is_irrelevant(
    text: TextView,
    first: int,
    a: AttrValue,
    second: int,
    b: AttrValue,
)
    requires
        0 <= first < text.options.len(),
        0 <= second < text.options.len(),
        first != second,
    ensures
        text.with(first, a).with(second, b) == text.with(second, b).with(first, a),
        text.with(first, a).with(second, b).markup() == text.with(second, b).with(
            first,
            a,
        ).markup(),
{
    assert(text.with(first, a).with(second, b) =~= text.with(second, b).with(first, a));
}

/// A content string with optional style attributes.
#[derive(Debug, Clone, PartialEq, Eq, PartialOrd, Ord, Hash)]
pub struct Text {
    content: String,
    options: TextOptions,
}

impl View for Text {
    type V = TextView;

    closed spec fn view(&self) -> TextView {
        TextView { content: self.content@, options: self.options@ }
    }
}

impl Default for Text {
    /// The empty text with no attribute set.
    fn default() -> (text: Self)
        ensures
            text@ == TextView::plain(Seq::empty()),
    {
        Text { content: String::new(), options: TextOptions::default() }
    }
}

impl Text {
    /// A text with no attribute set.
    pub fn new(content: &str) -> (text: Self)
        ensures
            text@ == TextView::plain(content@),
    {
        Text { content: content.to_owned(), options: TextOptions::default() }
    }

    /// A text with the given attributes.
    pub fn with_options(content: &str, options: TextOptions) -> (text: Self)
        ensures
            text@ == (TextView { content: content@, options: options@ }),
    {
        Text { content: content.to_owned(), options }
    }

    /// The content, as it was given.
    pub fn as_str(&self) -> (content: &str)
        ensures
            content@ == self@.content,
    {
        self.content.as_str()
    }

    /// A text always has one slot for each attribute.
    pub proof fn lemma_slots(&self)
        ensures
            self@.options.len() == TEXT_ATTRIBUTES,
    {
    }

    /// The style attributes.
    pub fn options(&self) -> (options: &TextOptions)
        ensures
            options@ == self@.options,
    {
        &self.options
    }

    /// Sets the fill colour, written as it stands.
    pub fn fill(self, color: &str) -> (text: Self)
        ensures
            text@ == self@.with(FILL as int, AttrValue::Raw(color@)),
    {
        let mut text = self;
        text.options.fill = Some(TextOptionValue::raw(color));
        text
    }

    /// Sets the language, written as a quoted string.
    pub fn lang(self, lang: &str) -> (text: Self)
        ensures
            text@ == self@.with(LANG as int, AttrValue::Quoted(lang@)),
    {
        let mut text = self;
        text.options.lang = Some(TextOptionValue::str(lang));
        text
    }

    /// Sets the font size, written as it stands.
    pub fn size(self, size: &str) -> (text: Self)
        ensures
            text@ == self@.with(SIZE as int, AttrValue::Raw(size@)),
    {
        let mut text = self;
        text.options.size = Some(TextOptionValue::raw(size));
        text
    }

    /// Sets the font family, written as a quoted string.
    pub fn font(self, font: &str) -> (text: Self)
        ensures
            text@ == self@.with(FONT as int, AttrValue::Quoted(font@)),
    {
        let mut text = self;
        text.options.font = Some(TextOptionValue::str(font));
        text
    }

    /// Sets the font style, written as it stands.
    pub fn style(self, style: &str) -> (text: Self)
        ensures
            text@ == self@.with(STYLE as int, AttrValue::Raw(style@)),
    {
        let mut text = self;
        text.options.style = Some(TextOptionValue::raw(style));
        text
    }

    /// Sets the font weight, written as it stands.
    pub fn weight(self, weight: &str) -> (text: Self)
        ensures
            text@ == self@.with(WEIGHT as int, AttrValue::Raw(weight@)),
    {
        let mut text = self;
        text.options.weight = Some(TextOptionValue::raw(weight));
        text
    }

    /// Sets the tracking, written as it stands.
    pub fn tracking(self, tracking: &str) -> (text: Self)
        ensures
            text@ == self@.with(TRACKING as int, AttrValue::Raw(tracking@)),
    {
        let mut text = self;
        text.options.tracking = Some(TextOptionValue::raw(tracking));
        text
    }

    /// Sets the font stretch, written as it stands.
    pub fn stretch(self, stretch: &str) -> (text: Self)
        ensures
            text@ == self@.with(STRETCH as int, AttrValue::Raw(stretch@)),
    {
        let mut text = self;
        text.options.stretch = Some(TextOptionValue::raw(stretch));
        text
    }

    /// Sets the font variant, written as it stands.
    pub fn variant(self, variant: &str) -> (text: Self)
        ensures
            text@ == self@.with(VARIANT as int, AttrValue::Raw(variant@)),
    {
        let mut text = self;
        text.options.variant = Some(TextOptionValue::raw(variant));
        text
    }

    /// Sets the baseline shift, written as it stands.
    pub fn baseline(self, baseline: &str) -> (text: Self)
        ensures
            text@ == self@.with(BASELINE as int, AttrValue::Raw(baseline@)),
    {
        let mut text = self;
        text.options.baseline = Some(TextOptionValue::raw(baseline));
        text
    }

    /// Sets the underline, written as it stands.
    pub fn underline(self, underline: &str) -> (text: Self)
        ensures
            text@ == self@.with(UNDERLINE as int, AttrValue::Raw(underline@)),
    {
        let mut text = self;
        text.options.underline = Some(TextOptionValue::raw(underline));
        text
    }

    /// Sets the overline, written as it stands.
    pub fn overline(self, overline: &str) -> (text: Self)
        ensures
            text@ == self@.with(OVERLINE as int, AttrValue::Raw(overline@)),
    {
        let mut text = self;
        text.options.overline = Some(TextOptionValue::raw(overline));
        text
    }

    /// Sets the strike-through line, written as it stands.
    pub fn line_through(self, line_through: &str) -> (text: Self)
        ensures
            text@ == self@.with(LINE_THROUGH as int, AttrValue::Raw(line_through@)),
    {
        let mut text = self;
        text.options.line_through = Some(TextOptionValue::raw(line_through));
        text
    }

    /// Sets the outline, written as it stands.
    pub fn outline(self, outline: &str) -> (text: Self)
        ensures
            text@ == self@.with(OUTLINE as int, AttrValue::Raw(outline@)),
    {
        let mut text = self;
        text.options.outline = Some(TextOptionValue::raw(outline));
        text
    }

    /// Sets the shadow, written as it stands.
    pub fn shadow(self, shadow: &str) -> (text: Self)
        ensures
            text@ == self@.with(SHADOW as int, AttrValue::Raw(shadow@)),
    {
        let mut text = self;
        text.options.shadow = Some(TextOptionValue::raw(shadow));
        text
    }

    /// Sets the offset, written as it stands.
    pub fn offset(self, offset: &str) -> (text: Self)
        ensures
            text@ == self@.with(OFFSET as int, AttrValue::Raw(offset@)),
    {
        let mut text = self;
        text.options.offset = Some(TextOptionValue::raw(offset));
        text
    }

    /// Sets the rotation, written as it stands.
    pub fn rotate(self, rotate: &str) -> (text: Self)
        ensures
            text@ == self@.with(ROTATE as int, AttrValue::Raw(rotate@)),
    {
        let mut text = self;
        text.options.rotate = Some(TextOptionValue::raw(rotate));
        text
    }

    /// Sets the scale, written as it stands.
    pub fn scale(self, scale: &str) -> (text: Self)
        ensures
            text@ == self@.with(SCALE as int, AttrValue::Raw(scale@)),
    {
        let mut text = self;
        text.options.scale = Some(TextOptionValue::raw(scale));
        text
    }

    /// Sets the text direction, written as it stands.
    pub fn dir(self, dir: &str) -> (text: Self)
        ensures
            text@ == self@.with(DIR as int, AttrValue::Raw(dir@)),
    {
        let mut text = self;
        text.options.dir = Some(TextOptionValue::raw(dir));
        text
    }

    /// Sets the writing mode, written as it stands.
    pub fn writing_mode(self, mode: &str) -> (text: Self)
        ensures
            text@ == self@.with(WRITING_MODE as int, AttrValue::Raw(mode@)),
    {
        let mut text = self;
        text.options.writing_mode = Some(TextOptionValue::raw(mode));
        text
    }

    /// Sets the region, written as it stands.
    pub fn region(self, region: &str) -> (text: Self)
        ensures
            text@ == self@.with(REGION as int, AttrValue::Raw(region@)),
    {
        let mut text = self;
        text.options.region = Some(TextOptionValue::raw(region));
        text
    }

    /// Sets the justification, written as it stands.
    pub fn justification(self, justification: &str) -> (text: Self)
        ensures
            text@ == self@.with(JUSTIFICATION as int, AttrValue::Raw(justification@)),
    {
        let mut text = self;
        text.options.justification = Some(TextOptionValue::raw(justification));
        text
    }

    /// Sets the alignment, written as it stands.
    pub fn align(self, align: &str) -> (text: Self)
        ensures
            text@ == self@.with(ALIGN as int, AttrValue::Raw(align@)),
    {
        let mut text = self;
        text.options.align = Some(TextOptionValue::raw(align));
        text
    }

    /// Sets the indent of the first line, written as it stands.
    pub fn first_line_indent(self, indent: &str) -> (text: Self)
        ensures
            text@ == self@.with(FIRST_LINE_INDENT as int, AttrValue::Raw(indent@)),
    {
        let mut text = self;
        text.options.first_line_indent = Some(TextOptionValue::raw(indent));
        text
    }

    /// Sets the hanging indent, written as it stands.
    pub fn hanging_indent(self, indent: &str) -> (text: Self)
        ensures
            text@ == self@.with(HANGING_INDENT as int, AttrValue::Raw(indent@)),
    {
        let mut text = self;
        text.options.hanging_indent = Some(TextOptionValue::raw(indent));
        text
    }

    /// Sets the leading, written as it stands.
    pub fn leading(self, leading: &str) -> (text: Self)
        ensures
            text@ == self@.with(LEADING as int, AttrValue::Raw(leading@)),
    {
        let mut text = self;
        text.options.leading = Some(TextOptionValue::raw(leading));
        text
    }

    /// Sets the spacing, written as it stands.
    pub fn spacing(self, spacing: &str) -> (text: Self)
        ensures
            text@ == self@.with(SPACING as int, AttrValue::Raw(spacing@)),
    {
        let mut text = self;
        text.options.spacing = Some(TextOptionValue::raw(spacing));
        text
    }

    /// Sets the paragraph break, written as it stands.
    pub fn parbreak(self, parbreak: &str) -> (text: Self)
        ensures
            text@ == self@.with(PARBREAK as int, AttrValue::Raw(parbreak@)),
    {
        let mut text = self;
        text.options.parbreak = Some(TextOptionValue::raw(parbreak));
        text
    }

    /// The markup of the text.
    pub fn render(&self) -> (out: String)
        ensures
            out@ == self@.markup(),
    {
        let set = self.options.entries();
        let content = trim(self.content.as_str());
        if set.len() == 0 {
            return content.to_owned();
        }
        let mut out = String::new();
        out.append("#text(");
        push_quoted(&mut out, content);
        push_led(&mut out, &set, ", ");
        out.append(")");
        assert(out@ =~= self@.markup());
        out
    }
}

/// What can stand where a text is asked for: a `Text`, or a string that
/// becomes a text with no attribute set.
pub trait IntoText: Sized {
    /// The text that this value becomes.
    spec fn text(&self) -> TextView;

    /// Turns the value into a text.
    fn into_text(self) -> (text: Text)
        ensures
            text@ == self.text(),
    ;
}

impl IntoText for Text {
    open spec fn text(&self) -> TextView {
        self@
    }

    fn into_text(self) -> (text: Text) {
        self
    }
}

impl<'a> IntoText for &'a str {
    open spec fn text(&self) -> TextView {
        TextView::plain(self@)
    }

    fn into_text(self) -> (text: Text) {
        Text::new(self)
    }
}

impl IntoText for String {
    open spec fn text(&self) -> TextView {
        TextView::plain(self@)
    }

    fn into_text(self) -> (text: Text) {
        Text::new(self.as_str())
    }
}

} // verus!
