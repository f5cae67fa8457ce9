//! Setting the command for an extension, a media type or a path.

use vstd::prelude::*;
use crate::media_type::MediaType;
use crate::mime_helpers::SniffOutcome;
use crate::config::edit_config::{
    EditConfig,
    SetOutcome,
    SetError,
    set_entry_result,
    section_name,
    after_set,
};
use crate::media_type::essence_of;
use crate::config::utils::{ConfigFile, content_of};
use crate::opt::ext_mime_path::{ExtMimePath, ConvertError, converts};

verus! {

/// What is asked for when a command is set.
#[derive(Debug)]
pub struct SetOptions {
    /// The extension, media type or path that the command is for.
    pub ext_mime_path: ExtMimePath,
    /// The command.
    pub command: String,
    /// Whether the command is for previewing instead of opening.
    pub preview: bool,
}

/// How setting a command ended.
#[derive(Debug)]
pub enum SetReport {
    /// The command was set, or was there already, for this media type. The
    /// configuration was stored where the outcome is not `Unchanged`.
    Done(MediaType, SetOutcome),
    /// The document refused the entry for this media type.
    Refused(MediaType, SetError),
    /// No media type was found for the argument.
    NoMediaType(ConvertError),
}

/// Whether a report tells of a change, which is then stored.
pub open spec fn stores_change(r: SetReport) -> bool {
    r matches SetReport::Done(_, outcome) && outcome != SetOutcome::Unchanged
}

impl SetOptions {
    /// Finds the argument's media type and sets the command for it in the
    /// document. A document that was changed is stored in the file. Where
    /// no media type is found, the document refuses the entry, or the
    /// command was in place already, document and file stay as they were.
    pub fn run(self, cfg: &mut EditConfig, file: &mut ConfigFile, sniff: &SniffOutcome) -> (r:
        SetReport)
        ensures
            stores_change(r) ==> content_of(*final(file)) == Some(final(cfg).text()),
            !stores_change(r) ==> *final(file) == *old(file),
            match r {
                SetReport::Done(m, outcome) => {
                    &&& converts(self.ext_mime_path, *sniff, Ok(m@))
                    &&& set_entry_result(old(cfg).sections(), self.preview, m@, self.command@)
                        == Ok::<SetOutcome, SetError>(outcome)
                    &&& outcome != SetOutcome::Unchanged ==> final(cfg).sections() == old(
                        cfg,
                    ).sections().insert(
                        section_name(self.preview),
                        after_set(
                            old(cfg).sections()[section_name(self.preview)],
                            essence_of(m@),
                            self.command@,
                        ),
                    )
                    &&& outcome == SetOutcome::Unchanged ==> *final(cfg) == *old(cfg)
                },
                SetReport::Refused(m, e) => {
                    &&& converts(self.ext_mime_path, *sniff, Ok(m@))
                    &&& set_entry_result(old(cfg).sections(), self.preview, m@, self.command@)
                        == Err::<SetOutcome, SetError>(e)
                    &&& *final(cfg) == *old(cfg)
                },
                SetReport::NoMediaType(e) => {
                    &&& converts(self.ext_mime_path, *sniff, Err(e))
                    &&& *final(cfg) == *old(cfg)
                },
            },
    {
        match self.ext_mime_path.convert_to_mime(sniff) {
            Ok(m) => match cfg.set_entry(self.preview, &m, self.command.as_str()) {
                Ok(outcome) => {
                    match outcome {
                        SetOutcome::Unchanged => {},
                        _ => {
                            cfg.store(file);
                        },
                    }
                    SetReport::Done(m, outcome)
                },
                Err(e) => SetReport::Refused(m, e),
            },
            Err(e) => SetReport::NoMediaType(e),
        }
    }
}

} // verus!
