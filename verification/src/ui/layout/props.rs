//! The properties that a component is made with.

use vstd::prelude::*;

verus! {

/// A colour of the terminal.
#[derive(Clone, Copy, Debug, PartialEq, Eq, Structural)]
pub enum Color {
    Reset,
    Black,
    Red,
    Green,
    Yellow,
    Blue,
    Magenta,
    Cyan,
    Gray,
    DarkGray,
    LightRed,
    LightGreen,
    LightYellow,
    LightBlue,
    LightMagenta,
    LightCyan,
    White,
    Rgb(u8, u8, u8),
    Indexed(u8),
}

/// The texts that a component shows: a title and the rows of its body.
#[derive(Debug)]
pub struct TextParts {
    pub title: Option<String>,
    pub body: Option<Vec<String>>,
}

impl TextParts {
    /// The texts with the given title and body.
    pub fn new(title: Option<String>, body: Option<Vec<String>>) -> (r: Self)
        ensures
            r.title == title,
            r.body == body,
    {
        TextParts { title, body }
    }
}

impl Default for TextParts {
    /// Neither title nor body.
    fn default() -> (r: Self)
        ensures
            r.title is None,
            r.body is None,
    {
        TextParts { title: None, body: None }
    }
}

/// A piece of text of a component.
#[derive(Debug)]
pub struct TextSpan {
    pub content: String,
}

impl TextSpan {
    /// The piece that holds `content`.
    pub fn from(content: &str) -> (r: Self)
        ensures
            r.content@ == content@,
    {
        TextSpan { content: content.to_owned() }
    }
}

/// A value that a component starts with.
#[derive(Clone, Copy, Debug, PartialEq, Eq, Structural)]
pub enum PropValue {
    Unsigned(usize),
    Boolean(bool),
    /// No value.
    Nothing,
}

/// All that a component is made with.
#[derive(Debug)]
pub struct Props {
    /// Whether the component is shown.
    pub visible: bool,
    pub foreground: Color,
    pub background: Color,
    pub bold: bool,
    pub italic: bool,
    pub underlined: bool,
    pub texts: TextParts,
    pub value: PropValue,
}

impl Default for Props {
    /// A visible component in the colours of the terminal, without
    /// emphasis, texts or value.
    fn default() -> (r: Self)
        ensures
            r.visible,
            r.foreground == Color::Reset,
            r.background == Color::Reset,
            !r.bold,
            !r.italic,
            !r.underlined,
            r.texts.title is None,
            r.texts.body is None,
            r.value == PropValue::Nothing,
    {
        Props {
            visible: true,
            foreground: Color::Reset,
            background: Color::Reset,
            bold: false,
            italic: false,
            underlined: false,
            texts: TextParts::default(),
            value: PropValue::Nothing,
        }
    }
}

/// Makes properties step by step. Once `build` has handed them out, the
/// builder is empty and its steps change nothing.
#[derive(Debug)]
pub struct PropsBuilder {
    pub props: Option<Props>,
}

impl PropsBuilder {
    /// A builder that starts from `props`.
    pub fn from(props: Props) -> (r: Self)
        ensures
            r.props == Some(props),
    {
        PropsBuilder { props: Some(props) }
    }

    /// Hands out the properties. They can be handed out once.
    pub fn build(&mut self) -> (r: Props)
        requires
            old(self).props is Some,
        ensures
            Some(r) == old(self).props,
            final(self).props is None,
    {
        self.props.take().unwrap()
    }

    /// Makes the component hidden.
    pub fn hidden(&mut self) -> (r: &mut Self)
        ensures
            *final(self) == *final(r),
            r.props == (match old(self).props {
                Some(p) => Some(Props { visible: false, ..p }),
                None => None,
            }),
    {
        let props = self.props.take();
        self.props = match props {
            Some(p) => Some(Props { visible: false, ..p }),
            None => None,
        };
        self
    }

    /// Sets the colour of the text.
    pub fn with_foreground(&mut self, color: Color) -> (r: &mut Self)
        ensures
            *final(self) == *final(r),
            r.props == (match old(self).props {
                Some(p) => Some(Props { foreground: color, ..p }),
                None => None,
            }),
    {
        let props = self.props.take();
        self.props = match props {
            Some(p) => Some(Props { foreground: color, ..p }),
            None => None,
        };
        self
    }

    /// Sets the colour behind the text.
    pub fn with_background(&mut self, color: Color) -> (r: &mut Self)
        ensures
            *final(self) == *final(r),
            r.props == (match old(self).props {
                Some(p) => Some(Props { background: color, ..p }),
                None => None,
            }),
    {
        let props = self.props.take();
        self.props = match props {
            Some(p) => Some(Props { background: color, ..p }),
            None => None,
        };
        self
    }

    /// Makes the text bold.
    pub fn bold(&mut self) -> (r: &mut Self)
        ensures
            *final(self) == *final(r),
            r.props == (match old(self).props {
                Some(p) => Some(Props { bold: true, ..p }),
                None => None,
            }),
    {
        let props = self.props.take();
        self.props = match props {
            Some(p) => Some(Props { bold: true, ..p }),
            None => None,
        };
        self
    }

    /// Makes the text italic.
    pub fn italic(&mut self) -> (r: &mut Self)
        ensures
            *final(self) == *final(r),
            r.props == (match old(self).props {
                Some(p) => Some(Props { italic: true, ..p }),
                None => None,
            }),
    {
        let props = self.props.take();
        self.props = match props {
            Some(p) => Some(Props { italic: true, ..p }),
            None => None,
        };
        self
    }

    /// Makes the text underlined.
    pub fn underlined(&mut self) -> (r: &mut Self)
        ensures
            *final(self) == *final(r),
            r.props == (match old(self).props {
                Some(p) => Some(Props { underlined: true, ..p }),
                None => None,
            }),
    {
        let props = self.props.take();
        self.props = match props {
            Some(p) => Some(Props { underlined: true, ..p }),
            None => None,
        };
        self
    }

    /// Sets the texts.
    pub fn with_texts(&mut self, texts: TextParts) -> (r: &mut Self)
        ensures
            *final(self) == *final(r),
            r.props == (match old(self).props {
                Some(p) => Some(Props { texts, ..p }),
                None => None,
            }),
    {
        let props = self.props.take();
        self.props = match props {
            Some(p) => Some(Props { texts, ..p }),
            None => None,
        };
        self
    }

    /// Sets the value to start with.
    pub fn with_value(&mut self, value: PropValue) -> (r: &mut Self)
        ensures
            *final(self) == *final(r),
            r.props == (match old(self).props {
                Some(p) => Some(Props { value, ..p }),
                None => None,
            }),
    {
        let props = self.props.take();
        self.props = match props {
            Some(p) => Some(Props { value, ..p }),
            None => None,
        };
        self
    }
}

impl Default for PropsBuilder {
    /// A builder that starts from the default properties.
    fn default() -> (r: Self)
        ensures
            r.props matches Some(p) && p.visible && p.foreground == Color::Reset && p.background
                == Color::Reset && !p.bold && !p.italic && !p.underlined && p.texts.title is None
                && p.texts.body is None && p.value == PropValue::Nothing,
    {
        PropsBuilder { props: Some(Props::default()) }
    }
}

} // verus!
