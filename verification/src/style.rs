//! Colours and text attributes, as plain values that a terminal driver can
//! turn into escape sequences.
use vstd::prelude::*;

verus! {

/// A terminal colour.
#[derive(Clone, Copy, Debug, PartialEq, Eq)]
pub enum Color {
    Reset,
    Black,
    DarkGrey,
    Red,
    DarkRed,
    Green,
    DarkGreen,
    Yellow,
    DarkYellow,
    Blue,
    DarkBlue,
    Magenta,
    DarkMagenta,
    Cyan,
    DarkCyan,
    White,
    Grey,
    Rgb { r: u8, g: u8, b: u8 },
    AnsiValue(u8),
}

/// One text attribute.
#[derive(Clone, Copy, Debug, PartialEq, Eq)]
pub enum Attribute {
    Bold,
    Dim,
    Italic,
    Underlined,
    SlowBlink,
    RapidBlink,
    Reverse,
    Hidden,
    CrossedOut,
}

/// A set of text attributes.
#[derive(Clone, Copy, Debug, PartialEq, Eq)]
pub struct Attributes {
    pub bold: bool,
    pub dim: bool,
    pub italic: bool,
    pub underlined: bool,
    pub slow_blink: bool,
    pub rapid_blink: bool,
    pub reverse: bool,
    pub hidden: bool,
    pub crossed_out: bool,
}

impl Attributes {
    /// The set without any attribute.
    pub open spec fn empty() -> Attributes {
        Attributes {
            bold: false,
            dim: false,
            italic: false,
            underlined: false,
            slow_blink: false,
            rapid_blink: false,
            reverse: false,
            hidden: false,
            crossed_out: false,
        }
    }

    /// Whether `attribute` is in the set.
    pub open spec fn contains(self, attribute: Attribute) -> bool {
        match attribute {
            Attribute::Bold => self.bold,
            Attribute::Dim => self.dim,
            Attribute::Italic => self.italic,
            Attribute::Underlined => self.underlined,
            Attribute::SlowBlink => self.slow_blink,
            Attribute::RapidBlink => self.rapid_blink,
            Attribute::Reverse => self.reverse,
            Attribute::Hidden => self.hidden,
            Attribute::CrossedOut => self.crossed_out,
        }
    }

    /// The set with `attribute` added.
    pub open spec fn including(self, attribute: Attribute) -> Attributes {
        match attribute {
            Attribute::Bold => Attributes { bold: true, ..self },
            Attribute::Dim => Attributes { dim: true, ..self },
            Attribute::Italic => Attributes { italic: true, ..self },
            Attribute::Underlined => Attributes { underlined: true, ..self },
            Attribute::SlowBlink => Attributes { slow_blink: true, ..self },
            Attribute::RapidBlink => Attributes { rapid_blink: true, ..self },
            Attribute::Reverse => Attributes { reverse: true, ..self },
            Attribute::Hidden => Attributes { hidden: true, ..self },
            Attribute::CrossedOut => Attributes { crossed_out: true, ..self },
        }
    }

    /// The set without any attribute.
    pub fn none() -> (a: Attributes)
        ensures
            a == Attributes::empty(),
    {
        Attributes {
            bold: false,
            dim: false,
            italic: false,
            underlined: false,
            slow_blink: false,
            rapid_blink: false,
            reverse: false,
            hidden: false,
            crossed_out: false,
        }
    }

    /// Whether `attribute` is in the set.
    pub fn has(&self, attribute: Attribute) -> (b: bool)
        ensures
            b == self.contains(attribute),
    {
        match attribute {
            Attribute::Bold => self.bold,
            Attribute::Dim => self.dim,
            Attribute::Italic => self.italic,
            Attribute::Underlined => self.underlined,
            Attribute::SlowBlink => self.slow_blink,
            Attribute::RapidBlink => self.rapid_blink,
            Attribute::Reverse => self.reverse,
            Attribute::Hidden => self.hidden,
            Attribute::CrossedOut => self.crossed_out,
        }
    }

    /// Adds `attribute` to the set.
    pub fn with(self, attribute: Attribute) -> (a: Attributes)
        ensures
            a == self.including(attribute),
            a.contains(attribute),
            forall|other: Attribute| other != attribute ==> a.contains(other) == self.contains(other),
    {
        let mut a = self;
        match attribute {
            Attribute::Bold => a.bold = true,
            Attribute::Dim => a.dim = true,
            Attribute::Italic => a.italic = true,
            Attribute::Underlined => a.underlined = true,
            Attribute::SlowBlink => a.slow_blink = true,
            Attribute::RapidBlink => a.rapid_blink = true,
            Attribute::Reverse => a.reverse = true,
            Attribute::Hidden => a.hidden = true,
            Attribute::CrossedOut => a.crossed_out = true,
        }
        a
    }
}

impl From<Attribute> for Attributes {
    fn from(attribute: Attribute) -> (a: Self) {
        Attributes::none().with(attribute)
    }
}

impl vstd::std_specs::convert::FromSpecImpl<Attribute> for Attributes {
    open spec fn obeys_from_spec() -> bool {
        true
    }

    open spec fn from_spec(attribute: Attribute) -> Attributes {
        Attributes::empty().including(attribute)
    }
}

/// How a run of text is drawn: its colours and its attributes.
#[derive(Clone, Copy, Debug, PartialEq, Eq)]
pub struct ContentStyle {
    pub foreground_color: Option<Color>,
    pub background_color: Option<Color>,
    pub underline_color: Option<Color>,
    pub attributes: Attributes,
}

impl ContentStyle {
    /// The style that sets nothing.
    pub open spec fn plain() -> ContentStyle {
        ContentStyle {
            foreground_color: None,
            background_color: None,
            underline_color: None,
            attributes: Attributes::empty(),
        }
    }

    /// The style that sets nothing.
    pub fn new() -> (s: ContentStyle)
        ensures
            s == ContentStyle::plain(),
    {
        ContentStyle {
            foreground_color: None,
            background_color: None,
            underline_color: None,
            attributes: Attributes::none(),
        }
    }
}

/// Builds a [`ContentStyle`] step by step.
#[derive(Clone, Copy, Debug)]
pub struct Style {
    content: ContentStyle,
}

impl Style {
    /// The style that the builder has collected so far.
    pub closed spec fn collected(self) -> ContentStyle {
        self.content
    }

    /// Starts from the style that sets nothing.
    pub fn new() -> (s: Style)
        ensures
            s.collected() == ContentStyle::plain(),
    {
        Style { content: ContentStyle::new() }
    }

    /// Sets the foreground colour.
    pub fn fgc(self, color: Color) -> (s: Style)
        ensures
            s.collected() == (ContentStyle { foreground_color: Some(color), ..self.collected() }),
    {
        let mut s = self;
        s.content.foreground_color = Some(color);
        s
    }

    /// Sets the background colour.
    pub fn bgc(self, color: Color) -> (s: Style)
        ensures
            s.collected() == (ContentStyle { background_color: Some(color), ..self.collected() }),
    {
        let mut s = self;
        s.content.background_color = Some(color);
        s
    }

    /// Sets the underline colour.
    pub fn ulc(self, color: Color) -> (s: Style)
        ensures
            s.collected() == (ContentStyle { underline_color: Some(color), ..self.collected() }),
    {
        let mut s = self;
        s.content.underline_color = Some(color);
        s
    }

    /// Replaces the attributes.
    pub fn attrs(self, attributes: Attributes) -> (s: Style)
        ensures
            s.collected() == (ContentStyle { attributes, ..self.collected() }),
    {
        let mut s = self;
        s.content.attributes = attributes;
        s
    }

    /// The style that was collected.
    pub fn build(self) -> (c: ContentStyle)
        ensures
            c == self.collected(),
    {
        self.content
    }
}

} // verus!
