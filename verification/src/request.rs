use crate::color::Color;
use crate::display::DisplayHandle;
use crate::error::WallpaperError;
use crate::scaling::ScalingMode;
use vstd::prelude::*;

verus! {

/// The options that go to the desktop shell with an image, each in the form
/// in which the shell takes it.
#[derive(Clone, Copy, Debug, PartialEq, Eq, Structural)]
pub struct DesktopOptions {
    /// The shell's number for the scaling mode.
    pub scaling_value: u64,
    /// One where the image may be clipped, zero where it may not.
    pub clipping_value: u8,
    /// The color of the area that the image leaves free.
    pub fill_color: Color,
}

/// One request to the desktop shell: the display, the image file and the
/// options, set together.
#[derive(Debug, PartialEq, Eq)]
pub struct ApplyCommand {
    pub display: DisplayHandle,
    pub image_path: String,
    pub options: DesktopOptions,
}

impl Clone for ApplyCommand {
    fn clone(&self) -> (copy: Self)
        ensures
            copy == *self,
    {
        ApplyCommand {
            display: self.display,
            image_path: self.image_path.clone(),
            options: self.options,
        }
    }
}

/// The shell's number for a clipping flag.
pub open spec fn spec_clipping_value(allow_clipping: bool) -> u8 {
    if allow_clipping {
        1
    } else {
        0
    }
}

/// The options in the form in which the shell takes them.
pub open spec fn spec_desktop_options(
    color: Color,
    scaling: ScalingMode,
    allow_clipping: bool,
) -> DesktopOptions {
    DesktopOptions {
        scaling_value: scaling.spec_native_value(),
        clipping_value: spec_clipping_value(allow_clipping),
        fill_color: color,
    }
}

/// What preparing a request gives: the command for the shell where the
/// color is valid, the error otherwise.
pub open spec fn spec_prepare_apply(
    display: DisplayHandle,
    image_path: String,
    color: Color,
    scaling: ScalingMode,
    allow_clipping: bool,
) -> Result<ApplyCommand, WallpaperError> {
    if color.spec_is_valid() {
        Ok(
            ApplyCommand {
                display,
                image_path,
                options: spec_desktop_options(color, scaling, allow_clipping),
            },
        )
    } else {
        Err(WallpaperError::InvalidColor)
    }
}

/// What the outcome of the shell's call means for the caller.
pub open spec fn spec_conclude_apply(outcome: Result<(), String>) -> Result<(), WallpaperError> {
    match outcome {
        Ok(_) => Ok(()),
        Err(detail) => Err(WallpaperError::ApplyFailure(detail)),
    }
}

/// The options in the form in which the shell takes them.
pub fn desktop_options(color: Color, scaling: ScalingMode, allow_clipping: bool) -> (options:
    DesktopOptions)
    ensures
        options == spec_desktop_options(color, scaling, allow_clipping),
{
    let clipping_value: u8 = if allow_clipping {
        1
    } else {
        0
    };
    DesktopOptions { scaling_value: scaling.native_value(), clipping_value, fill_color: color }
}

/// Checks a request before anything is asked of the shell, and builds the
/// command for it. A color with a channel that is not a number from zero to
/// one is refused; every other request gives the command that carries the
/// display, the path and the three options unchanged.
pub fn prepare_apply(
    display: DisplayHandle,
    image_path: String,
    color: Color,
    scaling: ScalingMode,
    allow_clipping: bool,
) -> (prepared: Result<ApplyCommand, WallpaperError>)
    ensures
        prepared == spec_prepare_apply(display, image_path, color, scaling, allow_clipping),
        prepared.is_ok() <==> color.spec_is_valid(),
{
    if color.is_valid() {
        Ok(
            ApplyCommand {
                display,
                image_path,
                options: desktop_options(color, scaling, allow_clipping),
            },
        )
    } else {
        Err(WallpaperError::InvalidColor)
    }
}

/// Turns the outcome of the shell's call into the caller's result: a
/// failure keeps the shell's own words.
pub fn conclude_apply(outcome: Result<(), String>) -> (concluded: Result<(), WallpaperError>)
    ensures
        concluded == spec_conclude_apply(outcome),
{
    match outcome {
        Ok(_) => Ok(()),
        Err(detail) => Err(WallpaperError::ApplyFailure(detail)),
    }
}

/// What a display shows: the image file and the options last set for it.
#[derive(Debug, PartialEq, Eq)]
pub struct DesktopImage {
    pub image_path: String,
    pub options: DesktopOptions,
}

/// The desktop after the shell has carried a command out: the display that
/// the command names shows its image with its options, and every other
/// display shows what it showed before.
pub open spec fn desktop_after(desktop: Map<u64, DesktopImage>, command: ApplyCommand) -> Map<
    u64,
    DesktopImage,
> {
    desktop.insert(
        command.display.identifier,
        DesktopImage { image_path: command.image_path, options: command.options },
    )
}

/// Equal requests give equal commands, and a command carried out twice
/// leaves the desktop as it is after the first time.
pub proof fn lemma_apply_idempotent(
    desktop: Map<u64, DesktopImage>,
    display: DisplayHandle,
    image_path: String,
    color: Color,
    scaling: ScalingMode,
    allow_clipping: bool,
)
    requires
        color.spec_is_valid(),
    ensures
        spec_prepare_apply(display, image_path, color, scaling, allow_clipping) is Ok,
        ({
            let command = spec_prepare_apply(
                display,
                image_path,
                color,
                scaling,
                allow_clipping,
            )->Ok_0;
            &&& desktop_after(desktop_after(desktop, command), command) == desktop_after(
                desktop,
                command,
            )
            &&& desktop_after(desktop, command)[display.identifier] == (DesktopImage {
                image_path,
                options: spec_desktop_options(color, scaling, allow_clipping),
            })
        }),
{
    let command = spec_prepare_apply(display, image_path, color, scaling, allow_clipping)->Ok_0;
    assert(desktop_after(desktop_after(desktop, command), command) =~= desktop_after(
        desktop,
        command,
    ));
}

} // verus!
