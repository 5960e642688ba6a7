//! Translating paths between the Linux side and the Windows side.
//!
//! The translation itself is the work of the `wslpath` tool, which a driver
//! runs. The library reads the tool's output, and it holds the steps by which
//! the path of a symbolic link is translated without following the link.

use crate::text::{
    back_until, back_while, chars_of, only, other_than, spec_trim, text_of, trailing, trim,
};
use vstd::prelude::*;
use vstd::string::StringExecFns;
use vstd::utf8::{decode_utf8, valid_utf8};

verus! {

/// Why a path could not be translated.
#[derive(Debug, Clone, PartialEq, Eq)]
pub enum WslPathError {
    /// The tool failed; holds what it wrote to its error stream.
    Failed(String),
    /// The tool's output was no UTF-8.
    InvalidUtf8,
}

/// A [`WslPathError`] as mathematical values.
pub enum WslPathErrorModel {
    Failed(Seq<char>),
    InvalidUtf8,
}

impl View for WslPathError {
    type V = WslPathErrorModel;

    open spec fn view(&self) -> WslPathErrorModel {
        match self {
            WslPathError::Failed(message) => WslPathErrorModel::Failed(message@),
            WslPathError::InvalidUtf8 => WslPathErrorModel::InvalidUtf8,
        }
    }
}

/// The model of a translation's result.
pub open spec fn translation_model(result: Result<String, WslPathError>) -> Result<
    Seq<char>,
    WslPathErrorModel,
> {
    match result {
        Ok(path) => Ok(path@),
        Err(error) => Err(error@),
    }
}

/// The text of an error.
pub open spec fn spec_error_message(error: WslPathErrorModel) -> Seq<char> {
    match error {
        WslPathErrorModel::Failed(message) => message,
        WslPathErrorModel::InvalidUtf8 => "wslpath returned invalid UTF-8"@,
    }
}

impl WslPathError {
    /// A copy of the error.
    pub fn duplicate(&self) -> (copy: WslPathError)
        ensures
            copy@ == self@,
    {
        match self {
            WslPathError::Failed(message) => WslPathError::Failed(message.clone()),
            WslPathError::InvalidUtf8 => WslPathError::InvalidUtf8,
        }
    }

    /// The text of the error.
    pub fn message(&self) -> (text: String)
        ensures
            text@ == spec_error_message(self@),
    {
        match self {
            WslPathError::Failed(message) => message.clone(),
            WslPathError::InvalidUtf8 => String::from_str("wslpath returned invalid UTF-8"),
        }
    }
}

/// What `String::from_utf8_lossy` makes of bytes: their text, with a
/// replacement character in place of what is no UTF-8.
pub uninterp spec fn utf8_lossy(bytes: Seq<u8>) -> Seq<char>;

/// `String::from_utf8` gives the text that the bytes encode where they are
/// valid UTF-8, and fails where they are not.
#[verifier::external_body]
fn text_from_utf8(bytes: Vec<u8>) -> (text: Option<String>)
    ensures
        match text {
            Some(decoded) => valid_utf8(bytes@) && decoded@ == decode_utf8(bytes@),
            None => !valid_utf8(bytes@),
        },
{
    String::from_utf8(bytes).ok()
}

/// `String::from_utf8_lossy` gives the text of the bytes with replacement
/// characters for invalid sequences; where the bytes are valid UTF-8, that
/// is the text that they encode.
#[verifier::external_body]
fn text_from_utf8_lossy(bytes: &Vec<u8>) -> (text: String)
    ensures
        text@ == utf8_lossy(bytes@),
        valid_utf8(bytes@) ==> text@ == decode_utf8(bytes@),
{
    String::from_utf8_lossy(bytes).into_owned()
}

/// The failure that is reported where the tool wrote `stderr_text` to its
/// error stream: the text without the white space around it.
pub fn failure(stderr_text: &str) -> (error: WslPathError)
    ensures
        error@ == WslPathErrorModel::Failed(spec_trim(stderr_text@)),
{
    WslPathError::Failed(trim(stderr_text))
}

/// What a run of the tool amounts to. A run that failed gives what it wrote
/// to its error stream, which is where the tool explains itself. A run that
/// succeeded gives the path on its output, without the white space around
/// it, provided that the output is UTF-8.
pub open spec fn spec_translation(success: bool, stdout: Seq<u8>, stderr: Seq<u8>) -> Result<
    Seq<char>,
    WslPathErrorModel,
> {
    if !success {
        Err(WslPathErrorModel::Failed(spec_trim(utf8_lossy(stderr))))
    } else if !valid_utf8(stdout) {
        Err(WslPathErrorModel::InvalidUtf8)
    } else {
        Ok(spec_trim(decode_utf8(stdout)))
    }
}

/// Reads the outcome of a run of the tool: whether it exited with success,
/// and what it wrote to its output and to its error stream.
pub fn translation_from_output(success: bool, stdout: Vec<u8>, stderr: Vec<u8>) -> (result: Result<
    String,
    WslPathError,
>)
    ensures
        translation_model(result) == spec_translation(success, stdout@, stderr@),
{
    if !success {
        let text = text_from_utf8_lossy(&stderr);
        return Err(failure(text.as_str()));
    }
    match text_from_utf8(stdout) {
        Some(text) => Ok(trim(text.as_str())),
        None => Err(WslPathError::InvalidUtf8),
    }
}

/// An absolute path without the slashes at its end.
pub open spec fn spec_strip_slashes(path: Seq<char>) -> Seq<char> {
    path.take(path.len() - trailing(path, only('/')))
}

/// The directory and the name of the last component of an absolute path,
/// `/` being the separator. Slashes at the end and before the name do not
/// count. There is no such pair where the path is not absolute, where it is
/// the root, and where it ends in `.` or `..`.
pub open spec fn spec_split_leaf(path: Seq<char>) -> Option<(Seq<char>, Seq<char>)> {
    let stripped = spec_strip_slashes(path);
    let name_len = trailing(stripped, other_than('/'));
    let name = stripped.skip(stripped.len() - name_len);
    let head = spec_strip_slashes(stripped.take(stripped.len() - name_len));
    if path.len() == 0 || path[0] != '/' || name.len() == 0 || name == seq!['.'] || name == seq![
        '.',
        '.',
    ] {
        None
    } else if head.len() == 0 {
        Some((seq!['/'], name))
    } else {
        Some((head, name))
    }
}

/// The model of a split path.
pub open spec fn split_model(split: Option<(String, String)>) -> Option<(Seq<char>, Seq<char>)> {
    match split {
        Some((dirname, basename)) => Some((dirname@, basename@)),
        None => None,
    }
}

/// Splits an absolute path into the directory and the name of its last
/// component.
pub fn split_leaf(path: &str) -> (split: Option<(String, String)>)
    ensures
        split_model(split) == spec_split_leaf(path@),
{
    let chars = chars_of(path);
    if chars.len() == 0 || chars[0] != '/' {
        return None;
    }
    let end = back_while(&chars, chars.len(), '/');
    let start = back_until(&chars, end, '/');
    let head_end = back_while(&chars, start, '/');
    proof {
        let stripped = spec_strip_slashes(chars@);
        assert(chars@.take(chars.len() as int) =~= chars@);
        assert(stripped.take(start as int) =~= chars@.take(start as int));
        assert(stripped.skip(start as int) =~= chars@.subrange(start as int, end as int));
    }
    let name = text_of(&chars, start, end);
    let is_dot = end - start == 1 && chars[start] == '.';
    let is_dot_dot = end - start == 2 && chars[start] == '.' && chars[start + 1] == '.';
    proof {
        assert(seq!['.'].len() == 1 && seq!['.'][0] == '.');
        assert(is_dot == (name@ =~= seq!['.']));
        assert(is_dot_dot == (name@ =~= seq!['.', '.']));
    }
    if start == end || is_dot || is_dot_dot {
        None
    } else if head_end == 0 {
        proof {
            reveal_strlit("/");
        }
        Some((String::from_str("/"), name))
    } else {
        Some((text_of(&chars, 0, head_end), name))
    }
}

/// The Windows path of an entry: the Windows path of its directory, a
/// backslash, and its name.
pub fn join_leaf(directory: &str, name: &str) -> (path: String)
    ensures
        path@ == directory@ + seq!['\\'] + name@,
{
    let mut path = String::from_str(directory);
    path.push('\\');
    path.append(name);
    path
}

/// The call that the driver of a [`SymlinkTranslation`] is to make next.
#[derive(Debug, PartialEq, Eq)]
pub enum SymlinkStep {
    /// Make this path absolute, against the current directory and without
    /// following links. Answered by [`SymlinkReply::Absolute`].
    MakeAbsolute(String),
    /// Translate this path to a Windows path. Answered by
    /// [`SymlinkReply::Translated`].
    Translate(String),
    /// Nothing is left to do: this is the translation.
    Finish(Result<String, WslPathError>),
}

/// What a call gave back.
#[derive(Debug, PartialEq, Eq)]
pub enum SymlinkReply {
    /// The absolute path, or nothing where it could not be had.
    Absolute(Option<String>),
    /// The Windows path, or the reason why there is none.
    Translated(Result<String, WslPathError>),
}

/// Where a translation stands.
enum SymlinkPhase {
    /// The absolute path is awaited.
    Resolving,
    /// The translation of the directory is awaited; holds the directory and
    /// the name of the entry in it.
    Directory(String, String),
    /// The translation of the path as it was given is awaited.
    Whole,
    /// The translation is done.
    Finished(Result<String, WslPathError>),
}

/// A [`SymlinkStep`] as mathematical values.
pub enum SymlinkStepModel {
    MakeAbsolute(Seq<char>),
    Translate(Seq<char>),
    Finish(Result<Seq<char>, WslPathErrorModel>),
}

/// A [`SymlinkReply`] as mathematical values.
pub enum SymlinkReplyModel {
    Absolute(Option<Seq<char>>),
    Translated(Result<Seq<char>, WslPathErrorModel>),
}

/// A [`SymlinkPhase`] as mathematical values.
pub enum SymlinkPhaseModel {
    Resolving,
    Directory(Seq<char>, Seq<char>),
    Whole,
    Finished(Result<Seq<char>, WslPathErrorModel>),
}

/// A translation as mathematical values.
pub struct SymlinkModel {
    /// The path as it was given.
    pub path: Seq<char>,
    /// What the translation awaits.
    pub phase: SymlinkPhaseModel,
}

impl View for SymlinkStep {
    type V = SymlinkStepModel;

    open spec fn view(&self) -> SymlinkStepModel {
        match self {
            SymlinkStep::MakeAbsolute(path) => SymlinkStepModel::MakeAbsolute(path@),
            SymlinkStep::Translate(path) => SymlinkStepModel::Translate(path@),
            SymlinkStep::Finish(result) => SymlinkStepModel::Finish(translation_model(*result)),
        }
    }
}

impl View for SymlinkReply {
    type V = SymlinkReplyModel;

    open spec fn view(&self) -> SymlinkReplyModel {
        match self {
            SymlinkReply::Absolute(Some(path)) => SymlinkReplyModel::Absolute(Some(path@)),
            SymlinkReply::Absolute(None) => SymlinkReplyModel::Absolute(None),
            SymlinkReply::Translated(result) => SymlinkReplyModel::Translated(
                translation_model(*result),
            ),
        }
    }
}

impl View for SymlinkPhase {
    type V = SymlinkPhaseModel;

    closed spec fn view(&self) -> SymlinkPhaseModel {
        match self {
            SymlinkPhase::Resolving => SymlinkPhaseModel::Resolving,
            SymlinkPhase::Directory(dirname, basename) => SymlinkPhaseModel::Directory(
                dirname@,
                basename@,
            ),
            SymlinkPhase::Whole => SymlinkPhaseModel::Whole,
            SymlinkPhase::Finished(result) => SymlinkPhaseModel::Finished(
                translation_model(*result),
            ),
        }
    }
}

/// The call that a translation asks for.
pub open spec fn spec_symlink_step(translation: SymlinkModel) -> SymlinkStepModel {
    match translation.phase {
        SymlinkPhaseModel::Resolving => SymlinkStepModel::MakeAbsolute(translation.path),
        SymlinkPhaseModel::Directory(dirname, _) => SymlinkStepModel::Translate(dirname),
        SymlinkPhaseModel::Whole => SymlinkStepModel::Translate(translation.path),
        SymlinkPhaseModel::Finished(result) => SymlinkStepModel::Finish(result),
    }
}

/// The translation after a reply. Where the absolute path splits into a
/// directory and a name, the directory is translated and the name appended
/// to it. Where it does not, or the directory cannot be translated, the
/// path is translated as it was given. A reply of another kind than the
/// awaited one changes nothing.
pub open spec fn spec_symlink_advance(translation: SymlinkModel, reply: SymlinkReplyModel)
    -> SymlinkModel {
    match (translation.phase, reply) {
        (SymlinkPhaseModel::Resolving, SymlinkReplyModel::Absolute(Some(absolute))) => {
            match spec_split_leaf(absolute) {
                Some((dirname, basename)) => SymlinkModel {
                    phase: SymlinkPhaseModel::Directory(dirname, basename),
                    ..translation
                },
                None => SymlinkModel { phase: SymlinkPhaseModel::Whole, ..translation },
            }
        },
        (SymlinkPhaseModel::Resolving, SymlinkReplyModel::Absolute(None)) => SymlinkModel {
            phase: SymlinkPhaseModel::Whole,
            ..translation
        },
        (SymlinkPhaseModel::Directory(_, basename), SymlinkReplyModel::Translated(Ok(directory)))
            => SymlinkModel {
            phase: SymlinkPhaseModel::Finished(Ok(directory + seq!['\\'] + basename)),
            ..translation
        },
        (SymlinkPhaseModel::Directory(_, _), SymlinkReplyModel::Translated(Err(_))) => SymlinkModel {
            phase: SymlinkPhaseModel::Whole,
            ..translation
        },
        (SymlinkPhaseModel::Whole, SymlinkReplyModel::Translated(result)) => SymlinkModel {
            phase: SymlinkPhaseModel::Finished(result),
            ..translation
        },
        _ => translation,
    }
}

/// The translation of the path of a symbolic link, on its way.
pub struct SymlinkTranslation {
    path: String,
    phase: SymlinkPhase,
}

impl View for SymlinkTranslation {
    type V = SymlinkModel;

    closed spec fn view(&self) -> SymlinkModel {
        SymlinkModel { path: self.path@, phase: self.phase@ }
    }
}

/// Starts translating `path`'s directory from the Linux side to the Windows
/// side, to append its name afterwards. This has the effect of making the
/// path to a symbolic link canonical without following the link itself,
/// which the tool alone cannot do: it resolves links, also in the last
/// component.
pub fn symlink_to_windows(path: String) -> (translation: SymlinkTranslation)
    ensures
        translation@ == (SymlinkModel { path: path@, phase: SymlinkPhaseModel::Resolving }),
{
    SymlinkTranslation { path, phase: SymlinkPhase::Resolving }
}

impl SymlinkTranslation {
    /// The call to make next, or the translation.
    pub fn step(&self) -> (step: SymlinkStep)
        ensures
            step@ == spec_symlink_step(self@),
    {
        match &self.phase {
            SymlinkPhase::Resolving => SymlinkStep::MakeAbsolute(self.path.clone()),
            SymlinkPhase::Directory(dirname, _) => SymlinkStep::Translate(dirname.clone()),
            SymlinkPhase::Whole => SymlinkStep::Translate(self.path.clone()),
            SymlinkPhase::Finished(result) => match result {
                Ok(path) => SymlinkStep::Finish(Ok(path.clone())),
                Err(error) => SymlinkStep::Finish(Err(error.duplicate())),
            },
        }
    }

    /// Takes the reply to the call that [`SymlinkTranslation::step`] asked
    /// for and decides what follows.
    pub fn advance(self, reply: SymlinkReply) -> (next: SymlinkTranslation)
        ensures
            next@ == spec_symlink_advance(self@, reply@),
    {
        let SymlinkTranslation { path, phase } = self;
        match (phase, reply) {
            (SymlinkPhase::Resolving, SymlinkReply::Absolute(Some(absolute))) => {
                match split_leaf(absolute.as_str()) {
                    Some((dirname, basename)) => SymlinkTranslation {
                        path,
                        phase: SymlinkPhase::Directory(dirname, basename),
                    },
                    None => SymlinkTranslation { path, phase: SymlinkPhase::Whole },
                }
            },
            (SymlinkPhase::Resolving, SymlinkReply::Absolute(None)) => SymlinkTranslation {
                path,
                phase: SymlinkPhase::Whole,
            },
            (SymlinkPhase::Directory(_, basename), SymlinkReply::Translated(Ok(directory))) => {
                let joined = join_leaf(directory.as_str(), basename.as_str());
                SymlinkTranslation { path, phase: SymlinkPhase::Finished(Ok(joined)) }
            },
            (SymlinkPhase::Directory(_, _), SymlinkReply::Translated(Err(_))) => SymlinkTranslation {
                path,
                phase: SymlinkPhase::Whole,
            },
            (SymlinkPhase::Whole, SymlinkReply::Translated(result)) => SymlinkTranslation {
                path,
                phase: SymlinkPhase::Finished(result),
            },
            (phase, _) => SymlinkTranslation { path, phase },
        }
    }
}

/// What translating the path of a symbolic link comes to, given the
/// absolute path, if it could be had, and the translation of every path.
pub open spec fn spec_symlink_to_windows(
    path: Seq<char>,
    absolute: Option<Seq<char>>,
    translate: spec_fn(Seq<char>) -> Result<Seq<char>, WslPathErrorModel>,
) -> Result<Seq<char>, WslPathErrorModel> {
    let split = match absolute {
        Some(full) => spec_split_leaf(full),
        None => None,
    };
    match split {
        Some((dirname, basename)) => match translate(dirname) {
            Ok(directory) => Ok(directory + seq!['\\'] + basename),
            Err(_) => translate(path),
        },
        None => translate(path),
    }
}

/// The reply of a driver that makes each call as it is asked for.
pub open spec fn symlink_answer(
    step: SymlinkStepModel,
    absolute: Option<Seq<char>>,
    translate: spec_fn(Seq<char>) -> Result<Seq<char>, WslPathErrorModel>,
) -> SymlinkReplyModel {
    match step {
        SymlinkStepModel::Translate(path) => SymlinkReplyModel::Translated(translate(path)),
        _ => SymlinkReplyModel::Absolute(absolute),
    }
}

/// The translation after the driver has made the next `calls` calls.
pub open spec fn symlink_driven(
    translation: SymlinkModel,
    absolute: Option<Seq<char>>,
    translate: spec_fn(Seq<char>) -> Result<Seq<char>, WslPathErrorModel>,
    calls: nat,
) -> SymlinkModel
    decreases calls,
{
    if calls == 0 {
        translation
    } else {
        symlink_driven(
            spec_symlink_advance(
                translation,
                symlink_answer(spec_symlink_step(translation), absolute, translate),
            ),
            absolute,
            translate,
            (calls - 1) as nat,
        )
    }
}

/// A driver that makes each call as it is asked for ends, after three calls
/// at most, with the name of the link appended to the translation of its
/// directory, and with the translation of the path as given where that
/// cannot be had.
pub proof fn lemma_symlink_translation(
    path: Seq<char>,
    absolute: Option<Seq<char>>,
    translate: spec_fn(Seq<char>) -> Result<Seq<char>, WslPathErrorModel>,
)
    ensures
        symlink_driven(
            SymlinkModel { path, phase: SymlinkPhaseModel::Resolving },
            absolute,
            translate,
            3,
        ).phase == SymlinkPhaseModel::Finished(spec_symlink_to_windows(path, absolute, translate)),
{
    let start = SymlinkModel { path, phase: SymlinkPhaseModel::Resolving };
    let first = spec_symlink_advance(
        start,
        symlink_answer(spec_symlink_step(start), absolute, translate),
    );
    let second = spec_symlink_advance(
        first,
        symlink_answer(spec_symlink_step(first), absolute, translate),
    );
    let third = spec_symlink_advance(
        second,
        symlink_answer(spec_symlink_step(second), absolute, translate),
    );
    assert(symlink_driven(third, absolute, translate, 0) == third);
    assert(symlink_driven(second, absolute, translate, 1) == third);
    assert(symlink_driven(first, absolute, translate, 2) == third);
}

} // verus!
