use vstd::prelude::*;

use crate::FormatCommand;
use crate::FormatError;

verus! {

/// What one read of the clipboard produced. The clipboard is checked for a
/// file list first and for plain text second; a clipboard that yields neither
/// is unreadable.
#[derive(Debug, PartialEq, Eq)]
pub enum ClipboardRead {
    /// The clipboard held references to these files.
    FileList(Vec<String>),
    /// The clipboard held this plain text.
    Text(String),
    /// The clipboard held neither a file list nor readable text.
    Unreadable,
}

/// The single resolved input source of a run.
#[derive(Debug, PartialEq, Eq)]
pub enum InputSource {
    /// Read this file.
    FilePath(String),
    /// Format this text, which came from the clipboard.
    ClipboardText(String),
}

/// Every file path that was offered as an input: the clipboard's file list,
/// if any, followed by the path given on the command line, if any.
pub open spec fn spec_file_candidates(
    clip: Option<ClipboardRead>,
    input: Option<String>,
) -> Seq<Seq<char>> {
    (match clip {
        Some(ClipboardRead::FileList(l)) => l.deep_view(),
        _ => Seq::<Seq<char>>::empty(),
    }) + (match input {
        Some(p) => seq![p@],
        None => Seq::<Seq<char>>::empty(),
    })
}

/// The text that the clipboard offered as an input; empty text counts as no
/// input at all.
pub open spec fn spec_clip_text(clip: Option<ClipboardRead>) -> Seq<char> {
    match clip {
        Some(ClipboardRead::Text(t)) => t@,
        _ => Seq::<char>::empty(),
    }
}

/// Reconcile the clipboard and the file argument into exactly one input
/// source. `clip` is what reading the clipboard produced, or `None` when the
/// clipboard was not requested.
///
/// An unreadable clipboard fails first. After that, exactly one non-empty
/// source must remain: none at all is missing input, and a second file or a
/// file next to clipboard text is ambiguous.
pub fn resolve_input(clip: Option<ClipboardRead>, input: Option<String>) -> (r: Result<
    InputSource,
    FormatError,
>)
    ensures
        (clip matches Some(ClipboardRead::Unreadable) ==> r == Err::<InputSource, FormatError>(
            FormatError::ClipboardUnreadable,
        )),
        !(clip matches Some(ClipboardRead::Unreadable)) ==> ({
            let files = spec_file_candidates(clip, input);
            let text = spec_clip_text(clip);
            &&& (files.len() == 0 && text.len() == 0 ==> r == Err::<InputSource, FormatError>(
                FormatError::InputMissing,
            ))
            &&& (files.len() > 1 || (files.len() == 1 && text.len() > 0) ==> r == Err::<
                InputSource,
                FormatError,
            >(FormatError::InputAmbiguous))
            &&& (files.len() == 1 && text.len() == 0 ==> (r matches Ok(
                InputSource::FilePath(p),
            ) && p@ == files[0]))
            &&& (files.len() == 0 && text.len() > 0 ==> (r matches Ok(
                InputSource::ClipboardText(t),
            ) && t@ == text))
        }),
{
    let mut files: Vec<String> = Vec::new();
    let mut text: Option<String> = None;
    match clip {
        Some(ClipboardRead::FileList(l)) => {
            files = l;
        },
        Some(ClipboardRead::Text(t)) => {
            if !t.as_str().is_empty() {
                text = Some(t);
            }
        },
        Some(ClipboardRead::Unreadable) => {
            return Err(FormatError::ClipboardUnreadable);
        },
        None => {},
    }
    if let Some(p) = input {
        files.push(p);
    }
    if files.len() == 0 {
        match text {
            Some(t) => Ok(InputSource::ClipboardText(t)),
            None => Err(FormatError::InputMissing),
        }
    } else if files.len() > 1 || text.is_some() {
        Err(FormatError::InputAmbiguous)
    } else {
        let p = files.remove(0);
        Ok(InputSource::FilePath(p))
    }
}

/// Check the command's flags before anything is read: the clipboard flag and
/// the input file are mutually exclusive, and one of them must be chosen.
pub fn validate_args(cmd: &FormatCommand) -> (r: Result<(), FormatError>)
    ensures
        r is Ok <==> (cmd.clip || cmd.input is Some) && !(cmd.clip && cmd.input is Some),
        (cmd.clip && cmd.input is Some ==> r == Err::<(), FormatError>(
            FormatError::InputAmbiguous,
        )),
        (!cmd.clip && cmd.input is None ==> r == Err::<(), FormatError>(FormatError::InputMissing)),
{
    if cmd.clip && cmd.input.is_some() {
        Err(FormatError::InputAmbiguous)
    } else if !cmd.clip && cmd.input.is_none() {
        Err(FormatError::InputMissing)
    } else {
        Ok(())
    }
}

} // verus!
