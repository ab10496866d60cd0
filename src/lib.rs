//! Capture, crop and timeline core of a screen-capture tool.
//!
//! The library holds the decisions: which action a command code names, the
//! single-slot mailboxes shared between input sources and the periodic
//! controller, how a drag becomes a crop rectangle, the undo/redo timeline,
//! the capture session state machine, pixel cropping, and the shortcut and
//! file-name rules. Screen capture, image codecs, the clipboard, dialogs and
//! the window toolkit are driven by the application around it.

mod action;
mod codec;
mod frame;
mod geometry;
mod naming;
mod session;
mod settings;
mod text;
mod timeline;

pub use action::{
    Action, ActionMailbox, action_code, action_from_code, action_of, code_of, lemma_code_round_trip,
};
pub use frame::{
    Frame, cropped_rows, joined, lemma_joined_split, lemma_rgba_round_trip, lemma_split_joined,
    rows_shaped, split_rows, without_alpha,
};
pub use geometry::{
    Drag, Rect, Region, abs_int, crop_of, crop_region, drag_covers, drag_moved,
    lemma_normalize_same_region, normal_rect, normalize, rect_covers,
};
pub use timeline::Timeline;
pub use session::{DragMailbox, Effect, Session, drag_ready, held_drag};
pub use text::{decimal, digit_char, push_decimal, push_signed_decimal, signed_decimal};
pub use naming::{
    ExportFormat, Stamp, capture_delay_ms, default_export_name, delay_at, export_name,
    extension_text, format_at, format_from_selection, frame_file_name, frame_name,
};
pub use settings::{
    Binding, Modifier, Settings, all_distinct, alphabet, binding_of, choices_distinct, key_index,
    key_index_of, key_name, key_text, lemma_key_round_trip, lemma_modifier_round_trip, modifier_index,
    modifier_index_of, modifier_name, modifier_text, parse_binding, text_equals,
};
pub use codec::{
    ExportError, MAX_SIDE, READ_BACK_BYTES, decode_frame, reads_as_size, decoded_frame_ok, decoded_image, encode_frame, export_file,
    gif_file, jpeg_file, lemma_png_read_back, png_file, size_fits,
};
