//! The files of a run: one shared context, and from it the place and the
//! name of each table's file.

use crate::calendar::{format_moment, CivilTime};
use crate::error::ExportError;
use vstd::prelude::*;
use vstd::string::*;

verus! {

/// What all exports of one run share: the timestamp token, the directory
/// under which the run's folder is made, and the prefix of the file names.
/// It is made once, before the first table, and only read afterwards.
#[derive(Clone, Debug, PartialEq, Eq)]
pub struct RunContext {
    /// The run's timestamp, in the form in which it appears in names.
    pub token: String,
    /// The directory that receives the run's folder; empty for the current
    /// directory.
    pub output_path: String,
    /// What the file names start with; empty for none.
    pub prefix: String,
}

/// The mathematical content of a [`RunContext`].
pub struct ContextModel {
    pub token: Seq<char>,
    pub output_path: Seq<char>,
    pub prefix: Seq<char>,
}

impl View for RunContext {
    type V = ContextModel;

    open spec fn view(&self) -> ContextModel {
        ContextModel { token: self.token@, output_path: self.output_path@, prefix: self.prefix@ }
    }
}

/// Where the file of one table goes.
#[derive(Clone, Debug, PartialEq, Eq)]
pub struct ExportArtifact {
    /// The directory in which the run's folder lies; `None` for the current
    /// directory.
    pub parent: Option<String>,
    /// The run's folder, named by the timestamp token.
    pub folder: String,
    /// The file's name inside the folder.
    pub file_name: String,
}

/// The mathematical content of an [`ExportArtifact`].
pub struct ArtifactModel {
    pub parent: Option<Seq<char>>,
    pub folder: Seq<char>,
    pub file_name: Seq<char>,
}

impl View for ExportArtifact {
    type V = ArtifactModel;

    open spec fn view(&self) -> ArtifactModel {
        ArtifactModel {
            parent: match self.parent {
                Some(p) => Some(p@),
                None => None,
            },
            folder: self.folder@,
            file_name: self.file_name@,
        }
    }
}

/// The pattern of a run's token: year, month and day joined by hyphens, an
/// underscore, then hour, minute and second joined by hyphens, each padded
/// with zeros.
pub open spec fn token_pattern() -> Seq<char> {
    "%Y-%m-%d_%H-%M-%S"@
}

/// The token of a run that starts at `now`: `now`, to the second, written
/// under [`token_pattern`]; `None` where `now` names no moment of the
/// calendar.
pub open spec fn run_token(now: CivilTime) -> Option<Seq<char>> {
    now.formatted(token_pattern())
}

/// What every file name of a run ends with: the separator, the run's
/// token, and the extension.
pub open spec fn name_suffix(token: Seq<char>) -> Seq<char> {
    "_"@ + token + ".csv"@
}

/// The name of a table's file: the prefix and a separator, unless the
/// prefix is empty; then the table's name, a separator, the run's token and
/// the extension.
pub open spec fn file_name_of(prefix: Seq<char>, table: Seq<char>, token: Seq<char>) -> Seq<char> {
    if prefix.len() == 0 {
        table + name_suffix(token)
    } else {
        prefix + "_"@ + table + name_suffix(token)
    }
}

/// The place of a table's file under a run's context.
pub open spec fn artifact_of(ctx: ContextModel, table: Seq<char>) -> ArtifactModel {
    ArtifactModel {
        parent: if ctx.output_path.len() == 0 {
            None
        } else {
            Some(ctx.output_path)
        },
        folder: ctx.token,
        file_name: file_name_of(ctx.prefix, table, ctx.token),
    }
}

impl RunContext {
    /// A context with the given token.
    pub fn new(token: String, output_path: String, prefix: String) -> (ctx: RunContext)
        ensures
            ctx@ == (ContextModel { token: token@, output_path: output_path@, prefix: prefix@ }),
    {
        RunContext { token, output_path, prefix }
    }

    /// The context of a run over an already formatted token, or the
    /// configuration error that stands for a start time that names no
    /// moment of the calendar.
    pub fn from_token(token: Option<String>, output_path: &str, prefix: &str) -> (r: Result<
        RunContext,
        ExportError,
    >)
        ensures
            match token {
                Some(t) => r matches Ok(ctx) && ctx@ == (ContextModel {
                    token: t@,
                    output_path: output_path@,
                    prefix: prefix@,
                }),
                None => r == Err::<RunContext, ExportError>(ExportError::Configuration),
            },
    {
        match token {
            Some(t) => Ok(RunContext::new(t, output_path.to_owned(), prefix.to_owned())),
            None => Err(ExportError::Configuration),
        }
    }

    /// The context of a run that starts at `now`: its token is
    /// [`run_token`] of `now`.
    pub fn starting_at(now: &CivilTime, output_path: &str, prefix: &str) -> (r: Result<
        RunContext,
        ExportError,
    >)
        ensures
            match run_token(*now) {
                Some(t) => r matches Ok(ctx) && ctx@ == (ContextModel {
                    token: t,
                    output_path: output_path@,
                    prefix: prefix@,
                }),
                None => r == Err::<RunContext, ExportError>(ExportError::Configuration),
            },
    {
        RunContext::from_token(format_moment(now, "%Y-%m-%d_%H-%M-%S"), output_path, prefix)
    }

    /// The place and the name of the file for `table`.
    pub fn artifact_for(&self, table: &str) -> (a: ExportArtifact)
        ensures
            a@ == artifact_of(self@, table@),
    {
        let mut file_name = String::new();
        if !self.prefix.as_str().is_empty() {
            file_name.append(self.prefix.as_str());
            file_name.append("_");
        }
        file_name.append(table);
        file_name.append("_");
        file_name.append(self.token.as_str());
        file_name.append(".csv");
        assert(file_name@ =~= file_name_of(self@.prefix, table@, self@.token));
        let parent = if self.output_path.as_str().is_empty() {
            None
        } else {
            Some(self.output_path.clone())
        };
        ExportArtifact { parent, folder: self.token.clone(), file_name }
    }
}

/// All files of one run lie in the same folder, which is named by the run's
/// token, under the same parent; and every file name ends with the
/// separator, that same token, and the extension.
pub proof fn lemma_run_shares_token(ctx: ContextModel, first: Seq<char>, second: Seq<char>)
    ensures
        artifact_of(ctx, first).folder == ctx.token,
        artifact_of(ctx, first).folder == artifact_of(ctx, second).folder,
        artifact_of(ctx, first).parent == artifact_of(ctx, second).parent,
        artifact_of(ctx, first).file_name.len() >= name_suffix(ctx.token).len(),
        artifact_of(ctx, first).file_name.skip(
            artifact_of(ctx, first).file_name.len() - name_suffix(ctx.token).len(),
        ) == name_suffix(ctx.token),
        artifact_of(ctx, second).file_name.len() >= name_suffix(ctx.token).len(),
        artifact_of(ctx, second).file_name.skip(
            artifact_of(ctx, second).file_name.len() - name_suffix(ctx.token).len(),
        ) == name_suffix(ctx.token),
{
    lemma_name_ends_with_token(ctx.prefix, first, ctx.token);
    lemma_name_ends_with_token(ctx.prefix, second, ctx.token);
}

/// A file name ends with the separator, the token and the extension,
/// whatever the prefix and the table are.
pub proof fn lemma_name_ends_with_token(prefix: Seq<char>, table: Seq<char>, token: Seq<char>)
    ensures
        file_name_of(prefix, table, token).len() >= name_suffix(token).len(),
        file_name_of(prefix, table, token).skip(
            file_name_of(prefix, table, token).len() - name_suffix(token).len(),
        ) == name_suffix(token),
{
    let name = file_name_of(prefix, table, token);
    let suffix = name_suffix(token);
    assert(name.skip(name.len() - suffix.len()) =~= suffix);
}

} // verus!
