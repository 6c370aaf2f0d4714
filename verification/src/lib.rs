//! Formats single log records into one human-readable line each, optionally
//! under ANSI styling. The core is the thread-identity color cache: a
//! read-mostly store that lazily assigns every logging thread a stable style,
//! exactly once per identity, drawn from a fixed palette of twenty-eight
//! styles. Around it stand the style palette, the record renderer and the
//! builder-assembled format options; terminal capability probing and the
//! wall clock are trusted collaborators.

mod ansi;
mod cache;
mod clock;
mod config;
mod ident;
mod level;
mod palette;
mod probe;
mod render;
mod text;

pub use ansi::hue_escape;
pub use ansi::paint;
pub use ansi::style_prefix;
pub use ansi::style_reset;
pub use ansi::styled_span;
pub use cache::ThreadColorCache;
pub use cache::assigned_index;
pub use cache::cache_wf;
pub use cache::index_taken;
pub use cache::lemma_assignment_stable;
pub use cache::lemma_seen_preserves_wf;
pub use cache::lemma_style_for_idempotent;
pub use cache::lemma_unique_indices;
pub use cache::seen;
pub use clock::OFFSET_SECONDS_BOUND;
pub use clock::Timestamp;
pub use config::Colorize;
pub use config::Format;
pub use ident::all_digits;
pub use ident::digit_val;
pub use ident::digits_value;
pub use ident::parse_thread_id;
pub use ident::thread_id_parse;
pub use level::Level;
pub use level::lemma_level_label_esc_free;
pub use level::level_label;
pub use level::level_label_spec;
pub use level::level_style;
pub use level::level_style_spec;
pub use palette::Hue;
pub use palette::Style;
pub use palette::hue_of_spec;
pub use palette::lemma_palette_injective;
pub use palette::lemma_palette_period;
pub use palette::style_of;
pub use palette::style_of_spec;
pub use render::Renderer;
pub use render::label_spec;
pub use render::lemma_label_esc_free;
pub use render::lemma_no_color_line;
pub use render::lemma_thread_label_omitted;
pub use render::lemma_timestamp_esc_free;
pub use render::level_part;
pub use render::make_label;
pub use render::message_part;
pub use render::name_view;
pub use render::render_spec;
pub use render::render_timestamp;
pub use render::thread_part;
pub use render::timestamp_text;
pub use supports_color::Stream;
pub use text::dec_rep;
pub use text::digit_char;
pub use text::esc_free;
pub use text::lemma_dec_rep_esc_free;
pub use text::lemma_esc_free_concat;
pub use text::pad2;
pub use text::pad6;
pub use text::u64_to_string;
