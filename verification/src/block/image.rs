//! Images.

use crate::block::options::{
    entries, entry_string, led, lemma_entries_push, push_led, quoted_string, unset, AttrValue,
};
use crate::escape::{push_quoted, quoted};
use crate::strings::{texts, trim, trimmed};
use vstd::prelude::*;

verus! {

/// How many options an image has.
pub const IMAGE_ATTRIBUTES: usize = 9;

/// The slot of the option `alt`.
pub const ALT: usize = 0;

/// The slot of the option `width`.
pub const WIDTH: usize = 1;

/// The slot of the option `height`.
pub const HEIGHT: usize = 2;

/// The slot of the option `fit`.
pub const FIT: usize = 3;

/// The slot of the option `format`.
pub const FORMAT: usize = 4;

/// The slot of the option `dpi`.
pub const DPI: usize = 5;

/// The slot of the option `gamma`.
pub const GAMMA: usize = 6;

/// The slot of the option `frame`.
pub const FRAME: usize = 7;

/// The slot of the option `invert`.
pub const INVERT: usize = 8;

/// The names of the image options, in the order in which they are declared
/// and written out.
pub open spec fn image_attribute_names() -> Seq<Seq<char>> {
    seq![
        "alt"@,
        "width"@,
        "height"@,
        "fit"@,
        "format"@,
        "dpi"@,
        "gamma"@,
        "frame"@,
        "invert"@,
    ]
}

/// The value of an image option.
#[derive(Debug, Clone, PartialEq, Eq)]
pub enum ImageOptionValue {
    /// A fragment of markup that is written as it stands.
    Raw(String),
    /// A text that is written as a quoted string.
    Str(String),
    /// A truth value.
    Bool(bool),
}

impl View for ImageOptionValue {
    type V = AttrValue;

    open spec fn view(&self) -> AttrValue {
        match self {
            ImageOptionValue::Raw(value) => AttrValue::Raw(value@),
            ImageOptionValue::Str(value) => AttrValue::Quoted(value@),
            ImageOptionValue::Bool(value) => AttrValue::Bool(*value),
        }
    }
}

impl ImageOptionValue {
    /// A value that is written as it stands.
    pub fn raw(value: &str) -> (option: Self)
        ensures
            option@ == AttrValue::Raw(value@),
    {
        ImageOptionValue::Raw(value.to_owned())
    }

    /// A value that is written as a quoted string.
    pub fn str(value: &str) -> (option: Self)
        ensures
            option@ == AttrValue::Quoted(value@),
    {
        ImageOptionValue::Str(value.to_owned())
    }

    /// The value as it stands in the markup.
    pub fn render(&self) -> (out: String)
        ensures
            out@ == self@.markup(),
    {
        match self {
            ImageOptionValue::Raw(value) => value.clone(),
            ImageOptionValue::Str(value) => quoted_string(value.as_str()),
            ImageOptionValue::Bool(value) => if *value {
                "true".to_owned()
            } else {
                "false".to_owned()
            },
        }
    }
}

/// What a slot of the options holds.
pub open spec fn slot_of(option: Option<ImageOptionValue>) -> Option<AttrValue> {
    match option {
        Some(value) => Some(value@),
        None => None,
    }
}

/// The options of an image, each of them set or not.
#[derive(Debug, Clone)]
pub struct ImageOptions {
    alt: Option<ImageOptionValue>,
    width: Option<ImageOptionValue>,
    height: Option<ImageOptionValue>,
    fit: Option<ImageOptionValue>,
    format: Option<ImageOptionValue>,
    dpi: Option<ImageOptionValue>,
    gamma: Option<ImageOptionValue>,
    frame: Option<ImageOptionValue>,
    invert: Option<ImageOptionValue>,
}

impl View for ImageOptions {
    type V = Seq<Option<AttrValue>>;

    /// One slot for each option, in declaration order.
    closed spec fn view(&self) -> Seq<Option<AttrValue>> {
        seq![
            slot_of(self.alt),
            slot_of(self.width),
            slot_of(self.height),
            slot_of(self.fit),
            slot_of(self.format),
            slot_of(self.dpi),
            slot_of(self.gamma),
            slot_of(self.frame),
            slot_of(self.invert),
        ]
    }
}

impl Default for ImageOptions {
    /// Options with nothing set.
    fn default() -> (options: Self)
        ensures
            options@ == unset(IMAGE_ATTRIBUTES as nat),
    {
        ImageOptions {
            alt: None,
            width: None,
            height: None,
            fit: None,
            format: None,
            dpi: None,
            gamma: None,
            frame: None,
            invert: None,
        }
    }
}

impl ImageOptions {
    /// Sets the alternative text, written as a quoted string.
    pub fn alt(self, alt: &str) -> (options: Self)
        ensures
            options@ == self@.update(ALT as int, Some(AttrValue::Quoted(alt@))),
    {
        let mut options = self;
        options.alt = Some(ImageOptionValue::str(alt));
        options
    }

    /// Sets the width, written as it stands.
    pub fn width(self, width: &str) -> (options: Self)
        ensures
            options@ == self@.update(WIDTH as int, Some(AttrValue::Raw(width@))),
    {
        let mut options = self;
        options.width = Some(ImageOptionValue::raw(width));
        options
    }

    /// Sets the height, written as it stands.
    pub fn height(self, height: &str) -> (options: Self)
        ensures
            options@ == self@.update(HEIGHT as int, Some(AttrValue::Raw(height@))),
    {
        let mut options = self;
        options.height = Some(ImageOptionValue::raw(height));
        options
    }

    /// Sets how the image fits its box, written as it stands.
    pub fn fit(self, fit: &str) -> (options: Self)
        ensures
            options@ == self@.update(FIT as int, Some(AttrValue::Raw(fit@))),
    {
        let mut options = self;
        options.fit = Some(ImageOptionValue::raw(fit));
        options
    }

    /// Sets the image format, written as a quoted string.
    pub fn format(self, format: &str) -> (options: Self)
        ensures
            options@ == self@.update(FORMAT as int, Some(AttrValue::Quoted(format@))),
    {
        let mut options = self;
        options.format = Some(ImageOptionValue::str(format));
        options
    }

    /// Sets the resolution, written as it stands.
    pub fn dpi(self, dpi: &str) -> (options: Self)
        ensures
            options@ == self@.update(DPI as int, Some(AttrValue::Raw(dpi@))),
    {
        let mut options = self;
        options.dpi = Some(ImageOptionValue::raw(dpi));
        options
    }

    /// Sets the gamma, written as it stands.
    pub fn gamma(self, gamma: &str) -> (options: Self)
        ensures
            options@ == self@.update(GAMMA as int, Some(AttrValue::Raw(gamma@))),
    {
        let mut options = self;
        options.gamma = Some(ImageOptionValue::raw(gamma));
        options
    }

    /// Sets the frame, written as it stands.
    pub fn frame(self, frame: &str) -> (options: Self)
        ensures
            options@ == self@.update(FRAME as int, Some(AttrValue::Raw(frame@))),
    {
        let mut options = self;
        options.frame = Some(ImageOptionValue::raw(frame));
        options
    }

    /// Sets whether the colours are inverted.
    pub fn invert(self, invert: bool) -> (options: Self)
        ensures
            options@ == self@.update(INVERT as int, Some(AttrValue::Bool(invert))),
    {
        let mut options = self;
        options.invert = Some(ImageOptionValue::Bool(invert));
        options
    }

    /// The options always have one slot for each option.
    pub proof fn lemma_slots(&self)
        ensures
            self@.len() == IMAGE_ATTRIBUTES,
    {
    }

    /// The entries of the options that are set, in declaration order, each as
    /// it stands in the markup.
    pub fn entries(&self) -> (out: Vec<String>)
        ensures
            texts(out@) == entries(image_attribute_names(), self@),
    {
        let names: [&str; IMAGE_ATTRIBUTES] = [
            "alt",
            "width",
            "height",
            "fit",
            "format",
            "dpi",
            "gamma",
            "frame",
            "invert",
        ];
        let values: [&Option<ImageOptionValue>; IMAGE_ATTRIBUTES] = [
            &self.alt,
            &self.width,
            &self.height,
            &self.fit,
            &self.format,
            &self.dpi,
            &self.gamma,
            &self.frame,
            &self.invert,
        ];
        let ghost all_names = image_attribute_names();
        let ghost slots = self@;
        assert(all_names =~= Seq::new(IMAGE_ATTRIBUTES as nat, |k: int| names@[k]@));
        assert(slots =~= Seq::new(IMAGE_ATTRIBUTES as nat, |k: int| slot_of(*values@[k])));
        let mut out: Vec<String> = Vec::new();
        let mut i: usize = 0;
        while i < IMAGE_ATTRIBUTES
            invariant
                i <= IMAGE_ATTRIBUTES,
                all_names == image_attribute_names(),
                slots == self@,
                all_names == Seq::new(IMAGE_ATTRIBUTES as nat, |k: int| names@[k]@),
                slots == Seq::new(IMAGE_ATTRIBUTES as nat, |k: int| slot_of(*values@[k])),
                texts(out@) == entries(all_names.take(i as int), slots.take(i as int)),
            decreases IMAGE_ATTRIBUTES - i,
        {
            proof {
                lemma_entries_push(
                    all_names.take(i as int),
                    slots.take(i as int),
                    all_names[i as int],
                    slots[i as int],
                );
                assert(all_names.take(i as int).push(all_names[i as int]) =~= all_names.take(
                    i + 1,
                ));
                assert(slots.take(i as int).push(slots[i as int]) =~= slots.take(i + 1));
            }
            match values[i] {
                Some(value) => {
                    let markup = value.render();
                    let ghost before = texts(out@);
                    out.push(entry_string(names[i], markup.as_str()));
                    assert(texts(out@) =~= before.push(out@.last()@));
                },
                None => {},
            }
            i = i + 1;
        }
        assert(all_names.take(IMAGE_ATTRIBUTES as int) =~= all_names);
        assert(slots.take(IMAGE_ATTRIBUTES as int) =~= slots);
        out
    }
}

/// An image as the markup sees it.
#[verifier::ext_equal]
pub struct ImageView {
    /// The path of the image file, as it was given.
    pub path: Seq<char>,
    /// One slot for each option, in declaration order.
    pub options: Seq<Option<AttrValue>>,
}

impl ImageView {
    /// The same image with the option of `slot` set to `value`.
    pub open spec fn with(self, slot: int, value: AttrValue) -> ImageView {
        ImageView { path: self.path, options: self.options.update(slot, Some(value)) }
    }

    /// An image with no option set.
    pub open spec fn plain(path: Seq<char>) -> ImageView {
        ImageView { path, options: unset(IMAGE_ATTRIBUTES as nat) }
    }

    /// The call that shows the image: the trimmed path as a quoted string,
    /// then each option that is set, in declaration order.
    pub open spec fn call(self) -> Seq<char> {
        "image("@ + quoted(trimmed(self.path)) + led(
            entries(image_attribute_names(), self.options),
            ", "@,
        ) + ")"@
    }

    /// The markup of the image without a line end: the call with `#` in front
    /// of it when `include_hash` is set, the bare call otherwise.
    pub open spec fn markup(self, include_hash: bool) -> Seq<char> {
        if include_hash {
            "#"@ + self.call()
        } else {
            self.call()
        }
    }

    /// The markup of the image as a block of its own.
    pub open spec fn block_markup(self) -> Seq<char> {
        self.markup(true) + "\n\n"@
    }
}

/// An image file with its options.
#[derive(Debug, Clone)]
pub struct Image {
    path: String,
    options: ImageOptions,
}

impl View for Image {
    type V = ImageView;

    closed spec fn view(&self) -> ImageView {
        ImageView { path: self.path@, options: self.options@ }
    }
}

impl Image {
    /// An image with no option set.
    pub fn new(path: &str) -> (image: Self)
        ensures
            image@ == ImageView::plain(path@),
    {
        Image { path: path.to_owned(), options: ImageOptions::default() }
    }

    /// An image always has one slot for each option.
    pub proof fn lemma_slots(&self)
        ensures
            self@.options.len() == IMAGE_ATTRIBUTES,
    {
    }

    /// The same image with `options` in place of its own.
    pub fn with_options(self, options: ImageOptions) -> (image: Self)
        ensures
            image@ == (ImageView { path: self@.path, options: options@ }),
    {
        let mut image = self;
        image.options = options;
        image
    }

    /// Sets the alternative text, written as a quoted string.
    pub fn alt(self, alt: &str) -> (image: Self)
        ensures
            image@ == self@.with(ALT as int, AttrValue::Quoted(alt@)),
    {
        let mut image = self;
        image.options.alt = Some(ImageOptionValue::str(alt));
        image
    }

    /// Sets the width, written as it stands.
    pub fn width(self, width: &str) -> (image: Self)
        ensures
            image@ == self@.with(WIDTH as int, AttrValue::Raw(width@)),
    {
        let mut image = self;
        image.options.width = Some(ImageOptionValue::raw(width));
        image
    }

    /// Sets the height, written as it stands.
    pub fn height(self, height: &str) -> (image: Self)
        ensures
            image@ == self@.with(HEIGHT as int, AttrValue::Raw(height@)),
    {
        let mut image = self;
        image.options.height = Some(ImageOptionValue::raw(height));
        image
    }

    /// Sets how the image fits its box, written as it stands.
    pub fn fit(self, fit: &str) -> (image: Self)
        ensures
            image@ == self@.with(FIT as int, AttrValue::Raw(fit@)),
    {
        let mut image = self;
        image.options.fit = Some(ImageOptionValue::raw(fit));
        image
    }

    /// Sets the image format, written as a quoted string.
    pub fn format(self, format: &str) -> (image: Self)
        ensures
            image@ == self@.with(FORMAT as int, AttrValue::Quoted(format@)),
    {
        let mut image = self;
        image.options.format = Some(ImageOptionValue::str(format));
        image
    }

    /// Sets the resolution, written as it stands.
    pub fn dpi(self, dpi: &str) -> (image: Self)
        ensures
            image@ == self@.with(DPI as int, AttrValue::Raw(dpi@)),
    {
        let mut image = self;
        image.options.dpi = Some(ImageOptionValue::raw(dpi));
        image
    }

    /// Sets the gamma, written as it stands.
    pub fn gamma(self, gamma: &str) -> (image: Self)
        ensures
            image@ == self@.with(GAMMA as int, AttrValue::Raw(gamma@)),
    {
        let mut image = self;
        image.options.gamma = Some(ImageOptionValue::raw(gamma));
        image
    }

    /// Sets the frame, written as it stands.
    pub fn frame(self, frame: &str) -> (image: Self)
        ensures
            image@ == self@.with(FRAME as int, AttrValue::Raw(frame@)),
    {
        let mut image = self;
        image.options.frame = Some(ImageOptionValue::raw(frame));
        image
    }

    /// Sets whether the colours are inverted.
    pub fn invert(self, invert: bool) -> (image: Self)
        ensures
            image@ == self@.with(INVERT as int, AttrValue::Bool(invert)),
    {
        let mut image = self;
        image.options.invert = Some(ImageOptionValue::Bool(invert));
        image
    }

    /// The markup of the image without a line end: a call in a content
    /// position when `include_hash` is set, a bare call otherwise.
    pub fn render_markup(&self, include_hash: bool) -> (out: String)
        ensures
            out@ == self@.markup(include_hash),
    {
        let set = self.options.entries();
        let mut out = String::new();
        if include_hash {
            out.append("#");
        }
        out.append("image(");
        push_quoted(&mut out, trim(self.path.as_str()));
        push_led(&mut out, &set, ", ");
        out.append(")");
        assert(out@ =~= self@.markup(include_hash));
        out
    }

    /// Appends the image to `output` as a block of its own.
    pub fn render(&self, output: &mut String)
        ensures
            final(output)@ == old(output)@ + self@.block_markup(),
    {
        let markup = self.render_markup(true);
        output.append(markup.as_str());
        output.append("\n\n");
        assert(output@ =~= old(output)@ + self@.block_markup());
    }
}

/// What can stand where an image is asked for: an `Image`, or a string, which
/// becomes the path of an image with no option set.
pub trait IntoImage: Sized {
    /// The image that this value becomes.
    spec fn picture(&self) -> ImageView;

    /// Turns the value into an image.
    fn into_image(self) -> (image: Image)
        ensures
            image@ == self.picture(),
    ;
}

impl IntoImage for Image {
    open spec fn picture(&self) -> ImageView {
        self@
    }

    fn into_image(self) -> (image: Image) {
        self
    }
}

impl<'a> IntoImage for &'a str {
    open spec fn picture(&self) -> ImageView {
        ImageView::plain(self@)
    }

    fn into_image(self) -> (image: Image) {
        Image::new(self)
    }
}

impl IntoImage for String {
    open spec fn picture(&self) -> ImageView {
        ImageView::plain(self@)
    }

    fn into_image(self) -> (image: Image) {
        Image::new(self.as_str())
    }
}

} // verus!
