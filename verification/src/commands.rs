//! What the settings window asks for: a preview of the timestamp format,
//! and the check that stands before a configuration is saved.

use vstd::prelude::*;
use vstd::string::*;
use crate::ordered::{app_rows, folder_rows, search_rows};
use crate::settings::Config;
use crate::text::{str_eq, texts};
use crate::validate::{validate, validation_errors};

verus! {

/// Why no preview of a timestamp format can be shown.
#[derive(Clone, Copy, Debug, PartialEq, Eq, Structural)]
pub enum FormatError {
    /// The format is empty.
    Empty,
    /// The format cannot be rendered.
    Invalid,
}

impl FormatError {
    /// The message shown beside the input field.
    pub fn message(&self) -> (text: &'static str)
        ensures
            text@ == (match *self {
                FormatError::Empty => "フォーマットを入力してください"@,
                FormatError::Invalid => "無効なフォーマット文字列です"@,
            }),
    {
        match self {
            FormatError::Empty => "フォーマットを入力してください",
            FormatError::Invalid => "無効なフォーマット文字列です",
        }
    }
}

/// The file name in the preview, taken apart.
pub const PREVIEW_STEM: &'static str = "FileName";

/// The extension of the file name in the preview.
pub const PREVIEW_EXTENSION: &'static str = ".txt";

/// The preview for a rendered timestamp: the sample file name with the
/// timestamp behind its stem where `position` is `after`, in front of it
/// otherwise, and `delimiter` between the two.
pub open spec fn preview_of(rendered: Seq<char>, delimiter: Seq<char>, position: Seq<char>) -> Seq<
    char,
> {
    if position == "after"@ {
        PREVIEW_STEM@ + delimiter + rendered + PREVIEW_EXTENSION@
    } else {
        rendered + delimiter + PREVIEW_STEM@ + PREVIEW_EXTENSION@
    }
}

/// Checks a timestamp format and shows what a file name would look like
/// with it. `rendered` is the current time written in `format`, or nothing
/// where the format cannot be rendered.
pub fn validate_timestamp_format(
    format: &str,
    delimiter: &str,
    position: &str,
    rendered: Option<&str>,
) -> (preview: Result<String, FormatError>)
    ensures
        match preview {
            Ok(text) => format@.len() != 0 && rendered is Some && text@ == preview_of(
                rendered.unwrap()@,
                delimiter@,
                position@,
            ),
            Err(e) => e == (if format@.len() == 0 {
                FormatError::Empty
            } else {
                FormatError::Invalid
            }) && (format@.len() == 0 || rendered is None),
        },
{
    if format.is_empty() {
        return Err(FormatError::Empty);
    }
    let ts = match rendered {
        Some(ts) => ts,
        None => {
            return Err(FormatError::Invalid);
        },
    };
    let mut text = String::new();
    if str_eq(position, "after") {
        text.append(PREVIEW_STEM);
        text.append(delimiter);
        text.append(ts);
    } else {
        text.append(ts);
        text.append(delimiter);
        text.append(PREVIEW_STEM);
    }
    text.append(PREVIEW_EXTENSION);
    assert(text@ =~= preview_of(ts@, delimiter@, position@));
    Ok(text)
}

/// The lines `lines`, each but the last followed by a line feed.
pub open spec fn joined(lines: Seq<Seq<char>>) -> Seq<char>
    decreases lines.len(),
{
    if lines.len() == 0 {
        Seq::empty()
    } else if lines.len() == 1 {
        lines[0]
    } else {
        joined(lines.drop_last()) + "\n"@ + lines.last()
    }
}

/// The lines as one text, with a line feed between every two.
pub fn join_lines(lines: &Vec<String>) -> (text: String)
    ensures
        text@ == joined(texts(lines@)),
{
    let ghost all = texts(lines@);
    let mut text = String::new();
    let mut i: usize = 0;
    assert(all.take(0) =~= Seq::empty());
    while i < lines.len()
        invariant
            i <= lines.len(),
            all == texts(lines@),
            text@ == joined(all.take(i as int)),
        decreases lines.len() - i,
    {
        proof {
            let next = all.take(i + 1);
            assert(next.drop_last() =~= all.take(i as int));
            assert(next.last() == lines@[i as int]@);
            if i == 0 {
                assert(text@ =~= Seq::<char>::empty());
            }
        }
        if i > 0 {
            text.append("\n");
        }
        text.append(lines[i].as_str());
        assert(text@ =~= joined(all.take(i + 1)));
        i += 1;
    }
    assert(all.take(i as int) =~= all);
    text
}

/// Whether `config` may be saved: it must be valid. What is wrong with it
/// is reported as one text, a line for each finding.
pub fn save_config(config: &Config) -> (checked: Result<(), String>)
    ensures
        match checked {
            Ok(_) => validation_errors(
                config.timestamp.format@,
                config.timestamp.position@,
                search_rows(config.search),
                folder_rows(config.folders),
                app_rows(config.apps),
            ).len() == 0,
            Err(text) => validation_errors(
                config.timestamp.format@,
                config.timestamp.position@,
                search_rows(config.search),
                folder_rows(config.folders),
                app_rows(config.apps),
            ).len() != 0 && text@ == joined(
                validation_errors(
                    config.timestamp.format@,
                    config.timestamp.position@,
                    search_rows(config.search),
                    folder_rows(config.folders),
                    app_rows(config.apps),
                ),
            ),
        },
{
    let errors = validate(config);
    if errors.len() == 0 {
        Ok(())
    } else {
        Err(join_lines(&errors))
    }
}

} // verus!
