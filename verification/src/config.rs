use vstd::prelude::*;

verus! {

/// How the renderer decides whether styling is used at all.
pub enum Colorize {
    /// Never style.
    BlackWhite,
    /// Always style.
    Color,
    /// Style exactly when the given stream supports it.
    ColorIf(supports_color::Stream),
}

impl Colorize {
    /// Whether styling is to be used: never for plain black and white, always
    /// when forced, and as the terminal probe answers otherwise. The probe's
    /// answer depends on the environment, so only the two fixed policies are
    /// pinned down.
    pub fn use_color(&self) -> (r: bool)
        ensures
            self matches Colorize::BlackWhite ==> !r,
            self matches Colorize::Color ==> r,
    {
        match self {
            Colorize::BlackWhite => false,
            Colorize::Color => true,
            Colorize::ColorIf(stream) => crate::probe::supports_color(*stream),
        }
    }
}

/// An immutable bundle of formatting options, assembled by chained setters
/// and consumed to produce a renderer.
pub struct Format {
    /// How to decide if colors should be used at all.
    pub colorize: Colorize,
    /// If thread names should be colored uniquely.
    pub color_threads: bool,
    /// If thread names should be logged.
    pub thread_names: bool,
}

impl Format {
    /// Creates a blank `Format` that prints without colors and no thread
    /// names.
    pub fn new() -> (r: Self)
        ensures
            r.colorize matches Colorize::BlackWhite,
            !r.color_threads,
            !r.thread_names,
    {
        Format { colorize: Colorize::BlackWhite, color_threads: false, thread_names: false }
    }

    /// Enable printing with colors if the given stream supports it.
    pub fn color_if_supported(self, stream: supports_color::Stream) -> (r: Self)
        ensures
            r.colorize matches Colorize::ColorIf(s) && s == stream,
            r.color_threads == self.color_threads,
            r.thread_names == self.thread_names,
    {
        Format {
            colorize: Colorize::ColorIf(stream),
            color_threads: self.color_threads,
            thread_names: self.thread_names,
        }
    }

    /// Force enable colors.
    pub fn force_colors(self) -> (r: Self)
        ensures
            r.colorize matches Colorize::Color,
            r.color_threads == self.color_threads,
            r.thread_names == self.thread_names,
    {
        Format {
            colorize: Colorize::Color,
            color_threads: self.color_threads,
            thread_names: self.thread_names,
        }
    }

    /// Print thread names/id.
    pub fn log_thread_names(self) -> (r: Self)
        ensures
            r.colorize == self.colorize,
            r.color_threads == self.color_threads,
            r.thread_names,
    {
        Format {
            colorize: self.colorize,
            color_threads: self.color_threads,
            thread_names: true,
        }
    }

    /// Give each thread its own color on their printed names.
    pub fn uniquely_color_threads(self) -> (r: Self)
        ensures
            r.colorize == self.colorize,
            r.color_threads,
            r.thread_names,
    {
        let with_colors = Format {
            colorize: self.colorize,
            color_threads: true,
            thread_names: self.thread_names,
        };
        with_colors.log_thread_names()
    }
}

} // verus!
