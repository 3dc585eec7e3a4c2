use crate::decimal::{decimal, decimal_text};
use vstd::prelude::*;
use vstd::string::StringExecFns;

verus! {

/// Why a run ended without setting every wallpaper.
#[derive(Debug, PartialEq, Eq)]
pub enum WallpaperError {
    /// The command line named no image.
    MissingArgument,
    /// The data directory could not be made; the text is the system's own.
    DirectoryCreation(String),
    /// No attached display has the identifier asked for.
    DisplayNotFound(u64),
    /// A channel of the fill color is not a number from zero to one.
    InvalidColor,
    /// The desktop shell refused the image; the text is the shell's own.
    ApplyFailure(String),
}

impl Clone for WallpaperError {
    fn clone(&self) -> (copy: Self)
        ensures
            copy == *self,
    {
        match self {
            WallpaperError::MissingArgument => WallpaperError::MissingArgument,
            WallpaperError::DirectoryCreation(detail) => WallpaperError::DirectoryCreation(
                detail.clone(),
            ),
            WallpaperError::DisplayNotFound(identifier) => WallpaperError::DisplayNotFound(
                *identifier,
            ),
            WallpaperError::InvalidColor => WallpaperError::InvalidColor,
            WallpaperError::ApplyFailure(detail) => WallpaperError::ApplyFailure(detail.clone()),
        }
    }
}

impl WallpaperError {
    /// The process exit code that stands for this error: 1 for a command
    /// line without an image, 2 for a display that is not attached, 3 for a
    /// refusal of the desktop shell, 4 for a data directory that cannot be
    /// made, 5 for a color that is refused.
    pub open spec fn spec_exit_code(self) -> u8 {
        match self {
            WallpaperError::MissingArgument => 1,
            WallpaperError::DisplayNotFound(_) => 2,
            WallpaperError::ApplyFailure(_) => 3,
            WallpaperError::DirectoryCreation(_) => 4,
            WallpaperError::InvalidColor => 5,
        }
    }

    /// The sentence that tells the user of this error.
    pub open spec fn spec_message(self) -> Seq<char> {
        match self {
            WallpaperError::MissingArgument => "missing argument: usage: wallpaper <wallpaper>"@,
            WallpaperError::DirectoryCreation(detail) => "cannot create the data directory: "@
                + detail@,
            WallpaperError::DisplayNotFound(identifier) => "no attached display has the identifier "@
                + decimal(identifier as nat),
            WallpaperError::InvalidColor => "a color channel is not between 0.0 and 1.0"@,
            WallpaperError::ApplyFailure(detail) => "cannot set the desktop image: "@ + detail@,
        }
    }

    /// The process exit code that stands for this error: never zero, and a
    /// different one for each kind.
    pub fn exit_code(&self) -> (code: u8)
        ensures
            code == self.spec_exit_code(),
            code != 0,
    {
        match self {
            WallpaperError::MissingArgument => 1,
            WallpaperError::DisplayNotFound(_) => 2,
            WallpaperError::ApplyFailure(_) => 3,
            WallpaperError::DirectoryCreation(_) => 4,
            WallpaperError::InvalidColor => 5,
        }
    }

    /// The sentence that tells the user of this error.
    pub fn message(&self) -> (text: String)
        ensures
            text@ == self.spec_message(),
    {
        match self {
            WallpaperError::MissingArgument => String::from_str(
                "missing argument: usage: wallpaper <wallpaper>",
            ),
            WallpaperError::DirectoryCreation(detail) => String::from_str(
                "cannot create the data directory: ",
            ).concat(detail.as_str()),
            WallpaperError::DisplayNotFound(identifier) => {
                let number = decimal_text(*identifier);
                String::from_str("no attached display has the identifier ").concat(
                    number.as_str(),
                )
            },
            WallpaperError::InvalidColor => String::from_str(
                "a color channel is not between 0.0 and 1.0",
            ),
            WallpaperError::ApplyFailure(detail) => String::from_str(
                "cannot set the desktop image: ",
            ).concat(detail.as_str()),
        }
    }
}

/// The process exit code of a run: zero for success, the error's own code
/// otherwise.
pub open spec fn spec_exit_code_of(outcome: Result<(), WallpaperError>) -> u8 {
    match outcome {
        Ok(_) => 0,
        Err(error) => error.spec_exit_code(),
    }
}

/// The process exit code of a run: zero exactly for success.
pub fn exit_code_of(outcome: &Result<(), WallpaperError>) -> (code: u8)
    ensures
        code == spec_exit_code_of(*outcome),
        code == 0 <==> outcome.is_ok(),
{
    match outcome {
        Ok(_) => 0,
        Err(error) => error.exit_code(),
    }
}

/// Errors of different kinds have different exit codes.
pub proof fn lemma_exit_codes_tell_kinds_apart(a: WallpaperError, b: WallpaperError)
    requires
        a.spec_exit_code() == b.spec_exit_code(),
    ensures
        a is MissingArgument <==> b is MissingArgument,
        a is DirectoryCreation <==> b is DirectoryCreation,
        a is DisplayNotFound <==> b is DisplayNotFound,
        a is InvalidColor <==> b is InvalidColor,
        a is ApplyFailure <==> b is ApplyFailure,
{
}

} // verus!
