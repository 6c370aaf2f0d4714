use vstd::prelude::*;
use vstd::string::StringExecFns;

use crate::ansi::paint;
use crate::ansi::styled_span;
use crate::cache::ThreadColorCache;
use crate::cache::assigned_index;
use crate::cache::seen;
use crate::clock::OFFSET_SECONDS_BOUND;
use crate::clock::Timestamp;
use crate::clock::now_timestamp;
use crate::clock::probe_local_offset_seconds;
use crate::config::Colorize;
use crate::config::Format;
use crate::level::Level;
use crate::level::level_label;
use crate::level::level_label_spec;
use crate::level::level_style;
use crate::level::level_style_spec;
use crate::palette::Style;
use crate::palette::style_of_spec;
use crate::level::lemma_level_label_esc_free;
use crate::text::dec_rep;
use crate::text::esc_free;
use crate::text::lemma_dec_rep_esc_free;
use crate::text::lemma_digit_char_esc_free;
use crate::text::lemma_esc_free_concat;
use crate::text::pad2;
use crate::text::pad2_string;
use crate::text::pad6;
use crate::text::pad6_string;
use crate::text::u64_to_string;

verus! {

/// The timestamp field of a line: the time of day as `HH:MM:SS.ffffff`, or a
/// placeholder of the same width when a field is out of its calendar range.
pub open spec fn timestamp_text(ts: Timestamp) -> Seq<char> {
    if ts.wf() {
        pad2(ts.hour as nat) + ":"@ + pad2(ts.minute as nat) + ":"@ + pad2(ts.second as nat)
            + "."@ + pad6(ts.microsecond as nat)
    } else {
        "??:??:??.??????"@
    }
}

/// Renders the timestamp field of a line.
pub fn render_timestamp(ts: &Timestamp) -> (r: String)
    ensures
        r@ == timestamp_text(*ts),
{
    if ts.hour < 24 && ts.minute < 60 && ts.second < 60 && ts.microsecond < 1000000 {
        let mut out = pad2_string(ts.hour as u64);
        out.append(":");
        out.append(pad2_string(ts.minute as u64).as_str());
        out.append(":");
        out.append(pad2_string(ts.second as u64).as_str());
        out.append(".");
        out.append(pad6_string(ts.microsecond as u64).as_str());
        proof {
            assert(out@ =~= timestamp_text(*ts));
        }
        out
    } else {
        String::from_str("??:??:??.??????")
    }
}

/// The view of an optional thread name.
pub open spec fn name_view(name: Option<&str>) -> Option<Seq<char>> {
    match name {
        Option::Some(n) => Option::Some(n@),
        Option::None => Option::None,
    }
}

/// A thread's label: its name between parentheses when it has one, else its
/// numeric identity in decimal between parentheses.
pub open spec fn label_spec(name: Option<Seq<char>>, id: u64) -> Seq<char> {
    "("@ + (match name {
        Option::Some(n) => n,
        Option::None => dec_rep(id as nat),
    }) + ")"@
}

/// Renders a thread's label.
pub fn make_label(name: Option<&str>, id: u64) -> (r: String)
    ensures
        r@ == label_spec(name_view(name), id),
{
    let mut out = String::from_str("(");
    match name {
        Option::Some(n) => out.append(n),
        Option::None => out.append(u64_to_string(id).as_str()),
    }
    out.append(")");
    proof {
        assert(out@ =~= label_spec(name_view(name), id));
    }
    out
}

/// The thread field of a line: nothing at all when thread names are off,
/// else a space and the label, under the thread's style when per-thread
/// coloring is on.
pub open spec fn thread_part(
    color_threads: bool,
    thread_names: bool,
    style: Style,
    name: Option<Seq<char>>,
    id: u64,
) -> Seq<char> {
    if thread_names {
        " "@ + (if color_threads {
            styled_span(style, label_spec(name, id))
        } else {
            label_spec(name, id)
        })
    } else {
        Seq::<char>::empty()
    }
}

/// The level field of a line: the bracketed literal label when styling is
/// off, nothing when styling is on (the message's style conveys the level).
pub open spec fn level_part(use_color: bool, l: Level) -> Seq<char> {
    if use_color {
        Seq::<char>::empty()
    } else {
        " ["@ + level_label_spec(l) + "]"@
    }
}

/// The message field of a line: a space and the message, under the level's
/// style when styling is on.
pub open spec fn message_part(use_color: bool, l: Level, msg: Seq<char>) -> Seq<char> {
    " "@ + (if use_color {
        styled_span(level_style_spec(l), msg)
    } else {
        msg
    })
}

/// One whole rendered line, with no trailing newline: timestamp, optional
/// thread label, optional level label, target, and message, in that fixed
/// order. The thread style argument matters only when thread names and
/// per-thread coloring are both on.
pub open spec fn render_spec(
    use_color: bool,
    color_threads: bool,
    thread_names: bool,
    style: Style,
    l: Level,
    target: Seq<char>,
    msg: Seq<char>,
    ts: Timestamp,
    name: Option<Seq<char>>,
    id: u64,
) -> Seq<char> {
    timestamp_text(ts) + thread_part(color_threads, thread_names, style, name, id) + level_part(
        use_color,
        l,
    ) + " "@ + target + ":"@ + message_part(use_color, l, msg)
}

/// Composes one line from already resolved parts.
#[verifier::rlimit(60)]
fn compose(
    use_color: bool,
    color_threads: bool,
    thread_names: bool,
    style: Option<&Style>,
    l: Level,
    target: &str,
    msg: &str,
    ts: &Timestamp,
    name: Option<&str>,
    id: u64,
) -> (r: String)
    requires
        color_threads && thread_names ==> style is Some,
    ensures
        r@ == render_spec(
            use_color,
            color_threads,
            thread_names,
            match style {
                Option::Some(s) => *s,
                Option::None => Style::plain_spec(),
            },
            l,
            target@,
            msg@,
            *ts,
            name_view(name),
            id,
        ),
{
    let ghost spec_style = (match style {
        Option::Some(s) => *s,
        Option::None => Style::plain_spec(),
    });
    let mut out = render_timestamp(ts);
    if thread_names {
        let label = make_label(name, id);
        out.append(" ");
        if color_threads {
            let styled = match style {
                Option::Some(s) => paint(s, label.as_str()),
                Option::None => label,
            };
            out.append(styled.as_str());
        } else {
            out.append(label.as_str());
        }
    }
    proof {
        assert(out@ =~= timestamp_text(*ts) + thread_part(
            color_threads,
            thread_names,
            spec_style,
            name_view(name),
            id,
        ));
    }
    let ghost head = out@;
    if !use_color {
        out.append(" [");
        out.append(level_label(l));
        out.append("]");
    }
    proof {
        assert(out@ =~= head + level_part(use_color, l));
    }
    let ghost mid = out@;
    out.append(" ");
    out.append(target);
    out.append(":");
    let ghost tail = out@;
    out.append(" ");
    if use_color {
        let styled_msg = paint(&level_style(l), msg);
        out.append(styled_msg.as_str());
    } else {
        out.append(msg);
    }
    proof {
        assert(mid =~= timestamp_text(*ts) + thread_part(
            color_threads,
            thread_names,
            spec_style,
            name_view(name),
            id,
        ) + level_part(use_color, l));
        assert(tail =~= mid + " "@ + target@ + ":"@);
        assert(out@ =~= tail + message_part(use_color, l, msg@));
    }
    proof {
        assert(out@ =~= render_spec(
            use_color,
            color_threads,
            thread_names,
            spec_style,
            l,
            target@,
            msg@,
            *ts,
            name_view(name),
            id,
        ));
    }
    out
}

/// The per-record formatting object produced from a `Format`: the color
/// decision and the local offset are fixed at construction, and one fresh
/// thread-identity color cache grows for its whole life.
pub struct Renderer {
    /// Whether styling is emitted at all.
    pub use_color: bool,
    /// Whether thread labels carry their per-thread style (never set without
    /// `use_color`).
    pub color_threads: bool,
    /// Whether thread labels are emitted.
    pub thread_names: bool,
    /// The local UTC offset captured at construction, in whole seconds.
    pub offset_seconds: i32,
    /// True when the local offset could not be determined and UTC stands in.
    pub offset_fallback: bool,
    /// The per-thread style store.
    pub cache: ThreadColorCache,
}

impl Format {
    /// Consumes the options and materializes a renderer: the color decision
    /// is made once, the local UTC offset is captured once (falling back to
    /// UTC when it cannot be determined), and a fresh, empty cache is
    /// created.
    pub fn renderer(self) -> (r: Renderer)
        ensures
            r.thread_names == self.thread_names,
            r.color_threads == (r.use_color && self.color_threads),
            self.colorize matches Colorize::BlackWhite ==> !r.use_color,
            self.colorize matches Colorize::Color ==> r.use_color,
            -OFFSET_SECONDS_BOUND <= r.offset_seconds <= OFFSET_SECONDS_BOUND,
            r.offset_fallback ==> r.offset_seconds == 0,
            r.cache@ == Map::<u64, u64>::empty(),
    {
        let use_color = self.colorize.use_color();
        let probed = probe_local_offset_seconds();
        let offset_seconds: i32 = match probed {
            Option::Some(s) => s,
            Option::None => 0,
        };
        let offset_fallback = match probed {
            Option::Some(_) => false,
            Option::None => true,
        };
        Renderer {
            use_color,
            color_threads: use_color && self.color_threads,
            thread_names: self.thread_names,
            offset_seconds,
            offset_fallback,
            cache: ThreadColorCache::new(),
        }
    }
}

impl Renderer {
    /// Whether rendering a record consults the thread-identity color cache.
    pub open spec fn consults_cache(self) -> bool {
        self.thread_names && self.color_threads
    }

    /// Renders one record into one line, for the given time of day and
    /// thread identity, assigning the calling thread its style on first
    /// sight.
    pub fn render_record(
        &mut self,
        l: Level,
        target: &str,
        msg: &str,
        ts: &Timestamp,
        name: Option<&str>,
        id: u64,
    ) -> (r: String)
        ensures
            final(self).use_color == old(self).use_color,
            final(self).color_threads == old(self).color_threads,
            final(self).thread_names == old(self).thread_names,
            final(self).offset_seconds == old(self).offset_seconds,
            final(self).offset_fallback == old(self).offset_fallback,
            final(self).cache@ == if old(self).consults_cache() {
                seen(old(self).cache@, id)
            } else {
                old(self).cache@
            },
            r@ == render_spec(
                old(self).use_color,
                old(self).color_threads,
                old(self).thread_names,
                style_of_spec(assigned_index(old(self).cache@, id)),
                l,
                target@,
                msg@,
                *ts,
                name_view(name),
                id,
            ),
    {
        if self.thread_names && self.color_threads {
            let style = self.cache.style_for(id);
            compose(
                self.use_color,
                self.color_threads,
                self.thread_names,
                Option::Some(&style),
                l,
                target,
                msg,
                ts,
                name,
                id,
            )
        } else {
            compose(
                self.use_color,
                self.color_threads,
                self.thread_names,
                Option::None,
                l,
                target,
                msg,
                ts,
                name,
                id,
            )
        }
    }

    /// Renders one record without ever writing to the cache: the read path.
    /// It answers exactly when no style assignment would be needed — when
    /// the cache is not consulted at all, or the identity was seen before —
    /// and then produces the same line `render_record` would.
    pub fn try_render(
        &self,
        l: Level,
        target: &str,
        msg: &str,
        ts: &Timestamp,
        name: Option<&str>,
        id: u64,
    ) -> (r: Option<String>)
        ensures
            r is Some <==> (!self.consults_cache() || self.cache@.contains_key(id)),
            r matches Some(line) ==> line@ == render_spec(
                self.use_color,
                self.color_threads,
                self.thread_names,
                style_of_spec(assigned_index(self.cache@, id)),
                l,
                target@,
                msg@,
                *ts,
                name_view(name),
                id,
            ),
    {
        if self.thread_names && self.color_threads {
            match self.cache.lookup(id) {
                Option::Some(style) => Option::Some(
                    compose(
                        self.use_color,
                        self.color_threads,
                        self.thread_names,
                        Option::Some(&style),
                        l,
                        target,
                        msg,
                        ts,
                        name,
                        id,
                    ),
                ),
                Option::None => Option::None,
            }
        } else {
            Option::Some(
                compose(
                    self.use_color,
                    self.color_threads,
                    self.thread_names,
                    Option::None,
                    l,
                    target,
                    msg,
                    ts,
                    name,
                    id,
                ),
            )
        }
    }

    /// Renders one record at the current wall-clock time, in the offset
    /// captured at construction.
    pub fn render_now(
        &mut self,
        l: Level,
        target: &str,
        msg: &str,
        name: Option<&str>,
        id: u64,
    ) -> (r: String)
        ensures
            final(self).use_color == old(self).use_color,
            final(self).color_threads == old(self).color_threads,
            final(self).thread_names == old(self).thread_names,
            final(self).offset_seconds == old(self).offset_seconds,
            final(self).offset_fallback == old(self).offset_fallback,
            final(self).cache@ == if old(self).consults_cache() {
                seen(old(self).cache@, id)
            } else {
                old(self).cache@
            },
            exists|ts: Timestamp|
                ts.wf() && r@ == #[trigger] render_spec(
                    old(self).use_color,
                    old(self).color_threads,
                    old(self).thread_names,
                    style_of_spec(assigned_index(old(self).cache@, id)),
                    l,
                    target@,
                    msg@,
                    ts,
                    name_view(name),
                    id,
                ),
    {
        let ts = now_timestamp(self.offset_seconds);
        let r = self.render_record(l, target, msg, &ts, name, id);
        proof {
            assert(ts.wf() && r@ == render_spec(
                old(self).use_color,
                old(self).color_threads,
                old(self).thread_names,
                style_of_spec(assigned_index(old(self).cache@, id)),
                l,
                target@,
                msg@,
                ts,
                name_view(name),
                id,
            ));
        }
        r
    }

    /// Renders one record at the current wall-clock time without ever
    /// writing to the cache: the read path of `render_now`.
    pub fn try_render_now(
        &self,
        l: Level,
        target: &str,
        msg: &str,
        name: Option<&str>,
        id: u64,
    ) -> (r: Option<String>)
        ensures
            r is Some <==> (!self.consults_cache() || self.cache@.contains_key(id)),
            r matches Some(line) ==> exists|ts: Timestamp|
                ts.wf() && line@ == #[trigger] render_spec(
                    self.use_color,
                    self.color_threads,
                    self.thread_names,
                    style_of_spec(assigned_index(self.cache@, id)),
                    l,
                    target@,
                    msg@,
                    ts,
                    name_view(name),
                    id,
                ),
    {
        let ts = now_timestamp(self.offset_seconds);
        let r = self.try_render(l, target, msg, &ts, name, id);
        proof {
            if r is Some {
                let line = r->Some_0;
                assert(ts.wf() && line@ == render_spec(
                    self.use_color,
                    self.color_threads,
                    self.thread_names,
                    style_of_spec(assigned_index(self.cache@, id)),
                    l,
                    target@,
                    msg@,
                    ts,
                    name_view(name),
                    id,
                ));
            }
        }
        r
    }
}


/// A two-digit field holds no escape character.
pub proof fn lemma_pad2_esc_free(n: nat)
    ensures
        esc_free(pad2(n)),
{
    assert forall|i: int| 0 <= i < pad2(n).len() implies pad2(n)[i] != '\u{1b}' by {
        lemma_digit_char_esc_free(n / 10 % 10);
        lemma_digit_char_esc_free(n % 10);
    }
}

/// A six-digit field holds no escape character.
pub proof fn lemma_pad6_esc_free(n: nat)
    ensures
        esc_free(pad6(n)),
{
    assert forall|i: int| 0 <= i < pad6(n).len() implies pad6(n)[i] != '\u{1b}' by {
        lemma_digit_char_esc_free(n / 100000 % 10);
        lemma_digit_char_esc_free(n / 10000 % 10);
        lemma_digit_char_esc_free(n / 1000 % 10);
        lemma_digit_char_esc_free(n / 100 % 10);
        lemma_digit_char_esc_free(n / 10 % 10);
        lemma_digit_char_esc_free(n % 10);
    }
}

/// A timestamp field holds no escape character, whether rendered or the
/// placeholder.
pub proof fn lemma_timestamp_esc_free(ts: Timestamp)
    ensures
        esc_free(timestamp_text(ts)),
{
    reveal_strlit(":");
    reveal_strlit(".");
    reveal_strlit("??:??:??.??????");
    if ts.wf() {
        lemma_pad2_esc_free(ts.hour as nat);
        lemma_pad2_esc_free(ts.minute as nat);
        lemma_pad2_esc_free(ts.second as nat);
        lemma_pad6_esc_free(ts.microsecond as nat);
        lemma_esc_free_concat(pad2(ts.hour as nat), ":"@);
        lemma_esc_free_concat(pad2(ts.hour as nat) + ":"@, pad2(ts.minute as nat));
        lemma_esc_free_concat(pad2(ts.hour as nat) + ":"@ + pad2(ts.minute as nat), ":"@);
        lemma_esc_free_concat(
            pad2(ts.hour as nat) + ":"@ + pad2(ts.minute as nat) + ":"@,
            pad2(ts.second as nat),
        );
        lemma_esc_free_concat(
            pad2(ts.hour as nat) + ":"@ + pad2(ts.minute as nat) + ":"@ + pad2(ts.second as nat),
            "."@,
        );
        lemma_esc_free_concat(
            pad2(ts.hour as nat) + ":"@ + pad2(ts.minute as nat) + ":"@ + pad2(ts.second as nat)
                + "."@,
            pad6(ts.microsecond as nat),
        );
    }
}

/// A thread label holds no escape character when the name itself holds none.
pub proof fn lemma_label_esc_free(name: Option<Seq<char>>, id: u64)
    requires
        name matches Some(n) ==> esc_free(n),
    ensures
        esc_free(label_spec(name, id)),
{
    reveal_strlit("(");
    reveal_strlit(")");
    let inner = (match name {
        Option::Some(n) => n,
        Option::None => dec_rep(id as nat),
    });
    lemma_dec_rep_esc_free(id as nat);
    lemma_esc_free_concat("("@, inner);
    lemma_esc_free_concat("("@ + inner, ")"@);
}

/// Thread-label omission law: when thread names are disabled the rendered
/// line is the same whatever the thread's name, identity or style: no
/// thread-identity text is emitted at all.
pub proof fn lemma_thread_label_omitted(
    use_color: bool,
    color_threads_a: bool,
    color_threads_b: bool,
    style_a: Style,
    style_b: Style,
    l: Level,
    target: Seq<char>,
    msg: Seq<char>,
    ts: Timestamp,
    name_a: Option<Seq<char>>,
    id_a: u64,
    name_b: Option<Seq<char>>,
    id_b: u64,
)
    ensures
        render_spec(use_color, color_threads_a, false, style_a, l, target, msg, ts, name_a, id_a)
            == render_spec(
            use_color,
            color_threads_b,
            false,
            style_b,
            l,
            target,
            msg,
            ts,
            name_b,
            id_b,
        ),
{
}

/// No-color law: with styling off the rendered line is the plain
/// concatenation carrying the literal bracketed level label, and it
/// introduces no ANSI escape: when the target, the message and the thread
/// name are escape-free, so is the whole line.
pub proof fn lemma_no_color_line(
    thread_names: bool,
    style: Style,
    l: Level,
    target: Seq<char>,
    msg: Seq<char>,
    ts: Timestamp,
    name: Option<Seq<char>>,
    id: u64,
)
    requires
        esc_free(target),
        esc_free(msg),
        name matches Some(n) ==> esc_free(n),
    ensures
        render_spec(false, false, thread_names, style, l, target, msg, ts, name, id)
            == timestamp_text(ts) + (if thread_names {
            " "@ + label_spec(name, id)
        } else {
            Seq::<char>::empty()
        }) + " ["@ + level_label_spec(l) + "]"@ + " "@ + target + ":"@ + " "@ + msg,
        esc_free(render_spec(false, false, thread_names, style, l, target, msg, ts, name, id)),
{
    reveal_strlit(" ");
    reveal_strlit(" [");
    reveal_strlit("]");
    reveal_strlit(":");
    lemma_timestamp_esc_free(ts);
    lemma_label_esc_free(name, id);
    lemma_level_label_esc_free(l);
    let tpart = thread_part(false, thread_names, style, name, id);
    assert(tpart == (if thread_names {
        " "@ + label_spec(name, id)
    } else {
        Seq::<char>::empty()
    }));
    if thread_names {
        lemma_esc_free_concat(" "@, label_spec(name, id));
    }
    let lpart = " ["@ + level_label_spec(l) + "]"@;
    lemma_esc_free_concat(" ["@, level_label_spec(l));
    lemma_esc_free_concat(" ["@ + level_label_spec(l), "]"@);
    let mpart = " "@ + msg;
    lemma_esc_free_concat(" "@, msg);
    lemma_esc_free_concat(timestamp_text(ts), tpart);
    lemma_esc_free_concat(timestamp_text(ts) + tpart, lpart);
    lemma_esc_free_concat(timestamp_text(ts) + tpart + lpart, " "@);
    lemma_esc_free_concat(timestamp_text(ts) + tpart + lpart + " "@, target);
    lemma_esc_free_concat(timestamp_text(ts) + tpart + lpart + " "@ + target, ":"@);
    lemma_esc_free_concat(timestamp_text(ts) + tpart + lpart + " "@ + target + ":"@, mpart);
    assert(render_spec(false, false, thread_names, style, l, target, msg, ts, name, id)
        == timestamp_text(ts) + tpart + lpart + " "@ + target + ":"@ + mpart);
}

} // verus!
