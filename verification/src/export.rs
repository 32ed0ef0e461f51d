//! The export dialog (File > Export…): format, scale 1x/2x/3x and JPEG
//! quality, and what its buttons decide.

use vstd::prelude::*;

verus! {

/// File format of an export.
#[derive(Clone, Copy, PartialEq, Eq, Debug, Structural)]
pub enum ExportFormat {
    Png,
    Jpeg,
    Svg,
    Pdf,
}

/// State of the dialog while it is open.
#[derive(Clone, Copy, PartialEq, Eq, Debug, Structural)]
pub struct ExportDialog {
    pub format: ExportFormat,
    /// 1, 2 or 3.
    pub scale: u32,
    pub jpeg_quality: u8,
}

impl Default for ExportDialog {
    /// PNG at 1x, JPEG quality 92.
    fn default() -> (d: Self)
        ensures
            d == (ExportDialog { format: ExportFormat::Png, scale: 1, jpeg_quality: 92 }),
    {
        ExportDialog { format: ExportFormat::Png, scale: 1, jpeg_quality: 92 }
    }
}

/// Settings frozen when "Export…" is pressed: they no longer change while the
/// file path is chosen and the export runs.
#[derive(Clone, Copy, PartialEq, Eq, Debug, Structural)]
pub struct ExportSettings {
    pub format: ExportFormat,
    pub scale: u32,
    pub jpeg_quality: u8,
}

/// What the dialog decided in one frame.
#[derive(Clone, Copy, PartialEq, Eq, Debug, Structural)]
pub enum ExportChoice {
    /// Still open, nothing decided.
    Pending,
    Cancel,
    Pick(ExportSettings),
}

/// The dialog's decision: Cancel wins over Export when both were pressed;
/// closing the dialog (click outside, Escape) without a decision cancels.
pub open spec fn spec_export_choice(
    dialog: ExportDialog,
    export_clicked: bool,
    cancel_clicked: bool,
    should_close: bool,
) -> ExportChoice {
    if cancel_clicked {
        ExportChoice::Cancel
    } else if export_clicked {
        ExportChoice::Pick(
            ExportSettings {
                format: dialog.format,
                scale: dialog.scale,
                jpeg_quality: dialog.jpeg_quality,
            },
        )
    } else if should_close {
        ExportChoice::Cancel
    } else {
        ExportChoice::Pending
    }
}

impl ExportDialog {
    /// Decides the dialog's outcome for this frame (see
    /// `spec_export_choice`).
    pub fn choice(&self, export_clicked: bool, cancel_clicked: bool, should_close: bool) -> (c:
        ExportChoice)
        ensures
            c == spec_export_choice(*self, export_clicked, cancel_clicked, should_close),
    {
        let mut choice = ExportChoice::Pending;
        if export_clicked {
            choice = ExportChoice::Pick(
                ExportSettings {
                    format: self.format,
                    scale: self.scale,
                    jpeg_quality: self.jpeg_quality,
                },
            );
        }
        if cancel_clicked {
            choice = ExportChoice::Cancel;
        }
        if should_close && choice == ExportChoice::Pending {
            choice = ExportChoice::Cancel;
        }
        choice
    }

    /// The JPEG quality slider: 1 to 100.
    pub fn set_jpeg_quality(&mut self, q: u8)
        ensures
            final(self).jpeg_quality == (if q < 1 {
                1
            } else if q > 100 {
                100
            } else {
                q
            }),
            final(self).format == old(self).format,
            final(self).scale == old(self).scale,
    {
        self.jpeg_quality = if q < 1 {
            1
        } else if q > 100 {
            100
        } else {
            q
        };
    }
}

/// Cancel always wins; Export, when not cancelled, picks exactly the
/// dialog's current format, scale and quality; closing the dialog without
/// a decision cancels; with nothing pressed the dialog stays open. The
/// dialog never picks unless Export was pressed.
pub proof fn lemma_export_decisions(
    dialog: ExportDialog,
    export_clicked: bool,
    cancel_clicked: bool,
    should_close: bool,
)
    ensures
        ({
            let c = spec_export_choice(dialog, export_clicked, cancel_clicked, should_close);
            &&& cancel_clicked ==> c == ExportChoice::Cancel
            &&& !cancel_clicked && export_clicked ==> c == ExportChoice::Pick(
                ExportSettings {
                    format: dialog.format,
                    scale: dialog.scale,
                    jpeg_quality: dialog.jpeg_quality,
                },
            )
            &&& !cancel_clicked && !export_clicked && should_close ==> c == ExportChoice::Cancel
            &&& !cancel_clicked && !export_clicked && !should_close ==> c == ExportChoice::Pending
            &&& (c is Pick ==> export_clicked)
        }),
{
}

} // verus!
