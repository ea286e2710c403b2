//! The annotation preprocessor: takes the comments out of an annotated GLSL
//! source, reads its directives and texture bindings, and gives back plain
//! GLSL with the settings found.

use crate::comments::strip;
use crate::comments::has_no_comment;
use crate::comments::lemma_plain_is_kept;
use crate::comments::lemma_strip_idempotent;
use crate::comments::lemma_stripped_is_ascii;
use crate::comments::strip_comments;
use crate::directives::directive_value;
use crate::directives::find_directive;
use crate::directives::lemma_number_is_positive;
use crate::directives::lemma_numbers_are_positive;
use crate::directives::parse_number;
use crate::directives::parse_numbers;
use crate::directives::read_number;
use crate::directives::read_numbers;
use crate::directives::Directive;
use crate::directives::NumberFault;
use crate::samplers::asks_feedback;
use crate::samplers::bindings;
use crate::samplers::cleaned;
use crate::samplers::feedback_declaration;
use crate::samplers::find_feedback;
use crate::samplers::lemma_bindings_are_a_mapping;
use crate::samplers::names_unique;
use crate::samplers::take_annotations;
use crate::samplers::Binding;
use crate::samplers::Found;
use crate::text::all_ascii;
use crate::text::ascii_bytes;
use crate::text::ascii_chars;
use crate::text::ascii_string;
use crate::text::bytes_of;
use crate::text::contains;
use crate::text::copy_range;
use crate::text::lemma_ascii_bytes_round_trip;
use crate::text::lemma_ascii_chars_round_trip;
use crate::timeline::FrameRange;
use crate::timeline::Positive;
use crate::timeline::FPS;
use vstd::prelude::*;
use vstd::string::StringExecFns;
use vstd::utf8::is_ascii_chars;

verus! {

/// Why a source is refused.
#[derive(Clone, Copy, Debug, PartialEq, Eq, Structural)]
pub enum GLSLError {
    /// The source holds a character that is not ASCII.
    NonAscii,
    /// A directive holds something that is no positive number.
    Number(Directive, NumberFault),
    /// The directive has more or fewer values than the two it takes.
    Count(Directive),
}

impl NumberFault {
    /// What is wrong, in words.
    pub open spec fn text(self) -> Seq<char> {
        match self {
            NumberFault::Empty => "cannot parse integer from empty string"@,
            NumberFault::InvalidDigit => "invalid digit found in string"@,
            NumberFault::TooLarge => "number too large to fit in target type"@,
            NumberFault::Zero => "number would be zero for non-zero type"@,
        }
    }

    pub fn describe(self) -> (text: &'static str)
        ensures
            text@ == self.text(),
    {
        match self {
            NumberFault::Empty => "cannot parse integer from empty string",
            NumberFault::InvalidDigit => "invalid digit found in string",
            NumberFault::TooLarge => "number too large to fit in target type",
            NumberFault::Zero => "number would be zero for non-zero type",
        }
    }
}

impl GLSLError {
    /// The message that tells the user what is wrong.
    pub open spec fn text(self) -> Seq<char> {
        match self {
            GLSLError::NonAscii => "Non-ASCII characters found"@,
            GLSLError::Number(directive, fault) => "Could not parse '"@ + directive.word()
                + "' directive: "@ + fault.text(),
            GLSLError::Count(directive) => "Expected 2 values for the '"@ + directive.word()
                + "' directive"@,
        }
    }

    pub fn message(&self) -> (text: String)
        ensures
            text@ == self.text(),
    {
        match *self {
            GLSLError::NonAscii => String::from_str("Non-ASCII characters found"),
            GLSLError::Number(directive, fault) => {
                let mut text = String::from_str("Could not parse '");
                text.append(directive.name());
                text.append("' directive: ");
                text.append(fault.describe());
                text
            },
            GLSLError::Count(directive) => {
                let mut text = String::from_str("Expected 2 values for the '");
                text.append(directive.name());
                text.append("' directive");
                text
            },
        }
    }
}

// ------------------------------------------------------------

/// The ASCII source `code` without its comments.
pub open spec fn stripped(code: Seq<char>) -> Seq<char> {
    ascii_chars(strip_comments(ascii_bytes(code)))
}

/// Stripping a source that has been stripped changes nothing.
pub proof fn lemma_stripping_is_idempotent(code: Seq<char>)
    requires
        is_ascii_chars(code),
    ensures
        stripped(stripped(code)) == stripped(code),
        is_ascii_chars(stripped(code)),
{
    let bytes = strip_comments(ascii_bytes(code));
    lemma_ascii_chars_round_trip(code);
    lemma_stripped_is_ascii(ascii_bytes(code), 0, 0);
    lemma_ascii_bytes_round_trip(bytes);
    lemma_strip_idempotent(ascii_bytes(code));
}

/// Stripping returns a source in which no comment begins unchanged: every
/// character is kept, line breaks included.
pub proof fn lemma_source_without_comments_is_kept(code: Seq<char>)
    requires
        is_ascii_chars(code),
        has_no_comment(ascii_bytes(code)),
    ensures
        stripped(code) == code,
{
    lemma_ascii_chars_round_trip(code);
    lemma_plain_is_kept(ascii_bytes(code));
}

/// GLSL source text that is known to be ASCII.
#[derive(Debug)]
pub struct GLSLCode {
    text: String,
}

impl View for GLSLCode {
    type V = Seq<char>;

    closed spec fn view(&self) -> Seq<char> {
        self.text@
    }
}

impl GLSLCode {
    #[verifier::type_invariant]
    spec fn ascii(self) -> bool {
        self.text.is_ascii()
    }

    /// Takes the source if all of it is ASCII.
    pub fn new(code: &str) -> (checked: Result<Self, GLSLError>)
        ensures
            match checked {
                Ok(checked) => code.is_ascii() && checked@ == code@,
                Err(error) => !code.is_ascii() && error == GLSLError::NonAscii,
            },
    {
        if !code.is_ascii() {
            return Err(GLSLError::NonAscii);
        }
        Ok(GLSLCode { text: String::from_str(code) })
    }

    /// The source without its comments.
    pub fn strip_comments(&self) -> (code: Self)
        ensures
            code@ == stripped(self@),
            is_ascii_chars(self@),
            is_ascii_chars(code@),
    {
        proof {
            use_type_invariant(self);
        }
        let bytes = strip(bytes_of(self.text.as_str()));
        proof {
            lemma_ascii_bytes_round_trip(bytes@);
        }
        GLSLCode { text: ascii_string(bytes) }
    }

    pub fn as_ref(&self) -> (text: &str)
        ensures
            text@ == self@,
            text.is_ascii(),
    {
        proof {
            use_type_invariant(self);
        }
        self.text.as_str()
    }

    pub fn into_string(self) -> (text: String)
        ensures
            text@ == self@,
    {
        self.text
    }
}

// ------------------------------------------------------------

/// The settings that a source makes.
pub struct Annotations {
    /// Width and height of the picture.
    pub resolution: (u32, u32),
    /// Whether each frame reads the frame before it.
    pub feedback: bool,
    /// Frames per second.
    pub rate: u32,
    /// The number of frames after which the sequence starts over, if any.
    pub range: Option<u32>,
    /// Sampler names with the paths of their images.
    pub texture_paths: Seq<(Seq<char>, Seq<char>)>,
}

/// The bindings as text.
pub open spec fn binding_texts(list: Seq<Binding>) -> Seq<(Seq<char>, Seq<char>)> {
    Seq::new(list.len(), |i: int| (ascii_chars(list[i].name), ascii_chars(list[i].path)))
}

/// The picture size that the source sets: two positive numbers on the last
/// `#define size` line, or 500 by 500 without such a line.
pub open spec fn read_size(text: Seq<u8>) -> Result<(u32, u32), GLSLError> {
    match directive_value(text, Directive::Size) {
        None => Ok((500, 500)),
        Some(value) => match read_numbers(value, 0) {
            Err(fault) => Err(GLSLError::Number(Directive::Size, fault)),
            Ok(numbers) => if numbers.len() == 2 {
                Ok((numbers[0], numbers[1]))
            } else {
                Err(GLSLError::Count(Directive::Size))
            },
        },
    }
}

/// The positive number that the last line of the directive sets, if there is
/// such a line.
pub open spec fn read_single(text: Seq<u8>, directive: Directive) -> Result<
    Option<u32>,
    GLSLError,
> {
    match directive_value(text, directive) {
        None => Ok(None),
        Some(value) => match read_number(value) {
            Err(fault) => Err(GLSLError::Number(directive, fault)),
            Ok(number) => Ok(Some(number)),
        },
    }
}

/// The settings that the source `text`, free of comments, makes; a fault in
/// the size is reported before one in the rate, and that before one in the
/// loop length.
pub open spec fn annotations_of(text: Seq<u8>) -> Result<Annotations, GLSLError> {
    match read_size(text) {
        Err(error) => Err(error),
        Ok(resolution) => match read_single(text, Directive::Rate) {
            Err(error) => Err(error),
            Ok(rate) => match read_single(text, Directive::Loop) {
                Err(error) => Err(error),
                Ok(range) => Ok(
                    Annotations {
                        resolution,
                        feedback: asks_feedback(text),
                        rate: match rate {
                            Some(rate) => rate,
                            None => 60,
                        },
                        range,
                        texture_paths: binding_texts(bindings(text)),
                    },
                ),
            },
        },
    }
}

/// The settings that a source makes are sound: the picture has a positive
/// width and height, the frame rate is positive, a loop has a positive
/// length, and no sampler is bound twice.
pub proof fn lemma_annotations_are_sound(text: Seq<u8>)
    ensures
        annotations_of(text) matches Ok(annotations) ==> {
            &&& annotations.resolution.0 > 0
            &&& annotations.resolution.1 > 0
            &&& annotations.rate > 0
            &&& annotations.range matches Some(end) ==> end > 0
            &&& names_unique(bindings(text))
            &&& annotations.feedback == contains(text, feedback_declaration())
        },
{
    lemma_bindings_are_a_mapping(text, text.len() as int, Seq::empty());
    match directive_value(text, Directive::Size) {
        Some(value) => {
            lemma_numbers_are_positive(value, 0);
        },
        None => {},
    }
    match directive_value(text, Directive::Rate) {
        Some(value) => {
            lemma_number_is_positive(value);
        },
        None => {},
    }
    match directive_value(text, Directive::Loop) {
        Some(value) => {
            lemma_number_is_positive(value);
        },
        None => {},
    }
}

/// The settings read from a source.
#[derive(Debug)]
pub struct CodeAnnotations {
    resolution: [u32; 2],
    feedback: bool,
    rate: FPS,
    range: FrameRange,
    texture_paths: Vec<(String, String)>,
}

impl View for CodeAnnotations {
    type V = Annotations;

    closed spec fn view(&self) -> Annotations {
        Annotations {
            resolution: (self.resolution@[0], self.resolution@[1]),
            feedback: self.feedback,
            rate: self.rate.0@,
            range: self.range@,
            texture_paths: self.texture_paths.deep_view(),
        }
    }
}

impl Default for CodeAnnotations {
    /// 500 by 500 pixels at sixty frames per second, no feedback, no end and
    /// no textures.
    fn default() -> (annotations: Self)
        ensures
            annotations@ == (Annotations {
                resolution: (500, 500),
                feedback: false,
                rate: 60,
                range: None,
                texture_paths: Seq::empty(),
            }),
    {
        let annotations = CodeAnnotations {
            resolution: [500, 500],
            feedback: false,
            rate: FPS::default(),
            range: FrameRange::default(),
            texture_paths: Vec::new(),
        };
        proof {
            assert(annotations.texture_paths.deep_view() =~= Seq::empty());
        }
        annotations
    }
}

impl CodeAnnotations {
    pub fn resolution(&self) -> (resolution: [u32; 2])
        ensures
            resolution@[0] == self@.resolution.0,
            resolution@[1] == self@.resolution.1,
    {
        self.resolution
    }

    pub fn feedback(&self) -> (feedback: bool)
        ensures
            feedback == self@.feedback,
    {
        self.feedback
    }

    pub fn rate(&self) -> (rate: FPS)
        ensures
            rate.0@ == self@.rate,
    {
        self.rate
    }

    pub fn range(&self) -> (range: FrameRange)
        ensures
            range@ == self@.range,
    {
        self.range
    }

    /// The sampler names with the paths of their images, each name once, in
    /// the order in which the names first occur in the source.
    pub fn texture_paths(&self) -> (paths: &Vec<(String, String)>)
        ensures
            paths.deep_view() == self@.texture_paths,
    {
        &self.texture_paths
    }
}

// ------------------------------------------------------------

/// A source as the preprocessor leaves it.
pub struct Annotated {
    /// The source without comments and annotations.
    pub code: Seq<char>,
    pub annotations: Annotations,
}

/// What preprocessing makes of the source `code`: the comments are taken
/// out first, the settings are read from what is left, and the annotations
/// are taken out last.
pub open spec fn preprocess(code: Seq<char>) -> Result<Annotated, GLSLError> {
    let text = ascii_bytes(stripped(code));
    match annotations_of(text) {
        Err(error) => Err(error),
        Ok(annotations) => Ok(Annotated { code: ascii_chars(cleaned(text)), annotations }),
    }
}

/// Plain GLSL with the settings that its annotated source made.
#[derive(Debug)]
pub struct AnnotatedGLSL {
    code: String,
    annotations: CodeAnnotations,
}

impl View for AnnotatedGLSL {
    type V = Annotated;

    closed spec fn view(&self) -> Annotated {
        Annotated { code: self.code@, annotations: self.annotations@ }
    }
}

/// Turns a number that is not zero into a count.
fn positive(number: u32) -> (count: Positive)
    requires
        number > 0,
    ensures
        count@ == number,
{
    match Positive::new(number) {
        Some(count) => count,
        None => FPS::default().0,
    }
}

/// Reads a directive that takes one positive number.
fn parse_single(text: &[u8], directive: Directive) -> (number: Result<Option<u32>, GLSLError>)
    ensures
        number == read_single(text@, directive),
        number matches Ok(Some(n)) ==> n > 0,
{
    match find_directive(text, directive) {
        None => Ok(None),
        Some((from, to)) => match parse_number(text, from, to) {
            Err(fault) => Err(GLSLError::Number(directive, fault)),
            Ok(number) => Ok(Some(number)),
        },
    }
}

/// Reads the picture size.
fn parse_size(text: &[u8]) -> (size: Result<[u32; 2], GLSLError>)
    ensures
        match size {
            Ok(size) => read_size(text@) == Ok::<(u32, u32), GLSLError>((size@[0], size@[1])),
            Err(error) => read_size(text@) == Err::<(u32, u32), GLSLError>(error),
        },
{
    match find_directive(text, Directive::Size) {
        None => Ok([500, 500]),
        Some((from, to)) => match parse_numbers(text, from, to) {
            Err(fault) => Err(GLSLError::Number(Directive::Size, fault)),
            Ok(numbers) => if numbers.len() == 2 {
                Ok([numbers[0], numbers[1]])
            } else {
                Err(GLSLError::Count(Directive::Size))
            },
        },
    }
}

/// Turns the bindings found into text.
fn name_paths(found: Vec<Found>) -> (paths: Vec<(String, String)>)
    requires
        forall|i: int|
            0 <= i < found@.len() ==> all_ascii(found@[i].name@) && all_ascii(found@[i].path@),
    ensures
        paths.deep_view() == binding_texts(crate::samplers::found_view(found@)),
{
    let mut paths: Vec<(String, String)> = Vec::new();
    let mut at: usize = 0;
    while at < found.len()
        invariant
            at <= found@.len(),
            paths@.len() == at,
            forall|i: int|
                0 <= i < found@.len() ==> all_ascii(found@[i].name@) && all_ascii(
                    found@[i].path@,
                ),
            forall|i: int|
                0 <= i < at ==> paths@[i].0@ == ascii_chars(found@[i].name@) && paths@[i].1@
                    == ascii_chars(found@[i].path@),
        decreases found@.len() - at,
    {
        let name = copy_range(found[at].name.as_slice(), 0, found[at].name.len());
        let path = copy_range(found[at].path.as_slice(), 0, found[at].path.len());
        proof {
            assert(name@ =~= found@[at as int].name@);
            assert(path@ =~= found@[at as int].path@);
        }
        paths.push((ascii_string(name), ascii_string(path)));
        at += 1;
    }
    proof {
        assert(paths.deep_view() =~= binding_texts(crate::samplers::found_view(found@)));
    }
    paths
}

impl AnnotatedGLSL {
    /// Preprocesses an annotated source.
    ///
    /// A source that is not all ASCII is refused before anything else is
    /// looked at.
    pub fn new(code: &str) -> (annotated: Result<Self, GLSLError>)
        ensures
            !code.is_ascii() ==> annotated == Err::<Self, GLSLError>(GLSLError::NonAscii),
            code.is_ascii() ==> match annotated {
                Ok(annotated) => preprocess(code@) == Ok::<Annotated, GLSLError>(annotated@),
                Err(error) => preprocess(code@) == Err::<Annotated, GLSLError>(error),
            },
    {
        let code = match GLSLCode::new(code) {
            Ok(code) => code,
            Err(error) => {
                return Err(error);
            },
        };
        let stripped = strip(bytes_of(code.as_ref()));
        proof {
            lemma_ascii_bytes_round_trip(stripped@);
        }
        let text = stripped.as_slice();
        let (found, cleaned) = take_annotations(text);
        let feedback = find_feedback(text);
        let resolution = match parse_size(text) {
            Ok(resolution) => resolution,
            Err(error) => {
                return Err(error);
            },
        };
        let rate = match parse_single(text, Directive::Rate) {
            Ok(Some(rate)) => FPS(positive(rate)),
            Ok(None) => FPS::default(),
            Err(error) => {
                return Err(error);
            },
        };
        let range = match parse_single(text, Directive::Loop) {
            Ok(Some(end)) => FrameRange::Bounded(positive(end)),
            Ok(None) => FrameRange::Endless,
            Err(error) => {
                return Err(error);
            },
        };
        let annotations = CodeAnnotations {
            resolution,
            feedback,
            rate,
            range,
            texture_paths: name_paths(found),
        };
        Ok(AnnotatedGLSL { code: ascii_string(cleaned), annotations })
    }

    /// The source without comments and annotations.
    pub fn code(&self) -> (code: &str)
        ensures
            code@ == self@.code,
    {
        self.code.as_str()
    }

    pub fn annotations(&self) -> (annotations: &CodeAnnotations)
        ensures
            annotations@ == self@.annotations,
    {
        &self.annotations
    }
}

} // verus!
