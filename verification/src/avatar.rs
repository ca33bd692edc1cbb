//! Avatar widget: size variants, display state driven by image load and
//! error events, display-mode resolution, fallback-text derivation, class
//! string assembly, and the size-name adapter.

use vstd::prelude::*;

verus! {

use vstd::string::StrSliceExecFns;
use vstd::string::StringExecFns;
use crate::text::is_space;
use crate::text::is_space_char;
use crate::text::opt_view;
use crate::text::seq_matches_ci;
use crate::text::str_eq_ci;
use crate::text::to_upper;
use crate::text::upper_of;

/// Size of an avatar.
#[derive(Debug, Clone, Copy, PartialEq, Eq, Structural)]
pub enum AvatarSize {
    Sm,
    Default,
    Lg,
}

/// Display inputs of an avatar, supplied once by the caller.
#[derive(Debug, Clone)]
pub struct AvatarProps {
    /// Alt text for the image; initials are derived from it when no
    /// explicit fallback text is supplied.
    pub alt: String,
    /// Optional image source URL.
    pub src: Option<String>,
    /// Optional explicit fallback text, shown when the image is absent or
    /// failed to load.
    pub fallback: Option<String>,
    /// Avatar size.
    pub size: AvatarSize,
    /// Optional caller-supplied extra class.
    pub class: Option<String>,
}

/// Mutable display state of one avatar instance.
#[derive(Debug, Clone, Copy, PartialEq, Eq, Structural)]
pub struct DisplayState {
    /// Whether the image is treated as loaded (set optimistically when a
    /// source is present).
    pub image_loaded: bool,
    /// Whether the image failed to load.
    pub image_error: bool,
}

/// What the avatar currently shows: the image, or the fallback text.
#[derive(Debug, Clone, Copy, PartialEq, Eq, Structural)]
pub enum DisplayMode {
    Image,
    Fallback,
}

/// The dimension classes an avatar size maps to.
pub open spec fn spec_size_classes(s: AvatarSize) -> Seq<char> {
    match s {
        AvatarSize::Sm => "h-8 w-8"@,
        AvatarSize::Default => "h-10 w-10"@,
        AvatarSize::Lg => "h-12 w-12"@,
    }
}

/// The text-scale class an avatar size maps to, for the fallback text.
pub open spec fn spec_text_size(s: AvatarSize) -> Seq<char> {
    match s {
        AvatarSize::Sm => "text-xs"@,
        AvatarSize::Default => "text-sm"@,
        AvatarSize::Lg => "text-base"@,
    }
}

impl Default for AvatarSize {
    /// The default avatar size.
    fn default() -> (r: Self)
        ensures
            r == AvatarSize::Default,
    {
        AvatarSize::Default
    }
}

impl AvatarSize {
    /// The dimension classes for this size.
    pub fn classes(&self) -> (r: &'static str)
        ensures
            r@ == spec_size_classes(*self),
    {
        match self {
            AvatarSize::Sm => "h-8 w-8",
            AvatarSize::Default => "h-10 w-10",
            AvatarSize::Lg => "h-12 w-12",
        }
    }

    /// The text-scale class for fallback text at this size.
    pub fn text_size(&self) -> (r: &'static str)
        ensures
            r@ == spec_text_size(*self),
    {
        match self {
            AvatarSize::Sm => "text-xs",
            AvatarSize::Default => "text-sm",
            AvatarSize::Lg => "text-base",
        }
    }
}

/// The initial display state: loaded iff an image source is present, and no
/// error.
pub open spec fn spec_initial_state(has_src: bool) -> DisplayState {
    DisplayState { image_loaded: has_src, image_error: false }
}

/// The display state after an image-load event: loaded, no error.
pub open spec fn spec_after_load(s: DisplayState) -> DisplayState {
    DisplayState { image_loaded: true, image_error: false }
}

/// The display state after an image-error event: not loaded, error.
pub open spec fn spec_after_error(s: DisplayState) -> DisplayState {
    DisplayState { image_loaded: false, image_error: true }
}

/// The display-state invariant: the loaded and error flags are never both
/// set in a stable state.
pub open spec fn state_wf(s: DisplayState) -> bool {
    !(s.image_loaded && s.image_error)
}

impl DisplayState {
    /// The initial display state for the given props.
    pub fn initialize(props: &AvatarProps) -> (r: DisplayState)
        ensures
            r == spec_initial_state(props.src is Some),
    {
        DisplayState { image_loaded: props.src.is_some(), image_error: false }
    }

    /// Records an image-load event: the image is shown, any earlier error is
    /// cleared.
    pub fn on_image_load(&mut self)
        ensures
            *final(self) == spec_after_load(*old(self)),
    {
        self.image_loaded = true;
        self.image_error = false;
    }

    /// Records an image-error event: the fallback is shown, any earlier load
    /// is cleared.
    pub fn on_image_error(&mut self)
        ensures
            *final(self) == spec_after_error(*old(self)),
    {
        self.image_error = true;
        self.image_loaded = false;
    }
}

/// Resolves the current display mode: the image is shown iff an image source
/// is present and no error has been recorded; otherwise the fallback is
/// shown.
pub fn resolve_display_mode(props: &AvatarProps, state: &DisplayState) -> (r: DisplayMode)
    ensures
        r == (if props.src is Some && !state.image_error {
            DisplayMode::Image
        } else {
            DisplayMode::Fallback
        }),
{
    if props.src.is_some() && !state.image_error {
        DisplayMode::Image
    } else {
        DisplayMode::Fallback
    }
}

/// The first characters of the words of `s` from position `i` on, where
/// `at_start` says whether position `i` begins a word (position 0, or the
/// previous character is whitespace).
pub open spec fn word_initials_from(s: Seq<char>, i: int, at_start: bool) -> Seq<char>
    decreases s.len() - i,
{
    if i < 0 || i >= s.len() {
        Seq::empty()
    } else if is_space_char(s[i]) {
        word_initials_from(s, i + 1, true)
    } else if at_start {
        seq![s[i]] + word_initials_from(s, i + 1, false)
    } else {
        word_initials_from(s, i + 1, false)
    }
}

/// The first two elements of `s`, or all of `s` when it is shorter.
pub open spec fn first_two(s: Seq<char>) -> Seq<char> {
    if s.len() <= 2 {
        s
    } else {
        s.take(2)
    }
}

/// The initials derived from alt text: the first character of each of the
/// first two whitespace-separated words.
pub open spec fn initials_of(s: Seq<char>) -> Seq<char> {
    first_two(word_initials_from(s, 0, true))
}

/// Collects the first character of each of the first two whitespace-separated
/// words of `alt`, in order.
pub fn derive_initials(alt: &str) -> (r: String)
    ensures
        r@ == initials_of(alt@),
{
    let n = alt.unicode_len();
    let mut initials = String::new();
    let mut count: usize = 0;
    let mut at_start = true;
    let mut i: usize = 0;
    let ghost mut collected: Seq<char> = Seq::empty();
    proof {
        assert(Seq::<char>::empty() + word_initials_from(alt@, 0, true) =~= word_initials_from(
            alt@,
            0,
            true,
        ));
    }
    while i < n
        invariant
            i <= n,
            n == alt@.len(),
            count <= 2,
            initials@ == first_two(collected),
            count == first_two(collected).len(),
            word_initials_from(alt@, 0, true) == collected + word_initials_from(
                alt@,
                i as int,
                at_start,
            ),
        decreases n - i,
    {
        let ghost i0 = i as int;
        let ghost b0 = at_start;
        let ghost col0 = collected;
        let c = alt.get_char(i);
        if is_space(c) {
            at_start = true;
            proof {
                assert(word_initials_from(alt@, i0, b0) == word_initials_from(alt@, i0 + 1, true));
            }
        } else {
            if at_start {
                proof {
                    assert(word_initials_from(alt@, i0, true) == seq![alt@[i0]]
                        + word_initials_from(alt@, i0 + 1, false));
                    collected = collected + seq![alt@[i0]];
                    assert(col0 + (seq![alt@[i0]] + word_initials_from(alt@, i0 + 1, false))
                        =~= collected + word_initials_from(alt@, i0 + 1, false));
                }
                if count < 2 {
                    let piece = alt.substring_char(i, i + 1);
                    proof {
                        assert(piece@ =~= seq![alt@[i0]]);
                        assert(col0.len() == count);
                        assert(first_two(collected) =~= first_two(col0) + seq![alt@[i0]]);
                    }
                    initials.append(piece);
                    count += 1;
                } else {
                    proof {
                        assert(col0.len() >= 2);
                        assert(first_two(collected) =~= first_two(col0));
                    }
                }
            } else {
                proof {
                    assert(word_initials_from(alt@, i0, false) == word_initials_from(
                        alt@,
                        i0 + 1,
                        false,
                    ));
                }
            }
            at_start = false;
        }
        i += 1;
    }
    proof {
        assert(word_initials_from(alt@, n as int, at_start) =~= Seq::<char>::empty());
        assert(collected + Seq::<char>::empty() =~= collected);
        assert(initials@ == initials_of(alt@));
    }
    initials
}

/// The resolved fallback text: the explicit fallback when it is present and
/// non-empty, else the upper-cased initials derived from the alt text.
pub open spec fn spec_resolved_fallback_text(alt: Seq<char>, fb: Option<Seq<char>>) -> Seq<char> {
    match fb {
        Some(f) => if f.len() > 0 {
            f
        } else {
            upper_of(initials_of(alt))
        },
        None => upper_of(initials_of(alt)),
    }
}

/// Resolves the fallback text of an avatar: the explicit fallback text when
/// present and non-empty, else the upper-cased initials of the first two
/// words of the alt text.
pub fn resolve_fallback_text(props: &AvatarProps) -> (r: String)
    ensures
        r@ == spec_resolved_fallback_text(props.alt@, opt_view(props.fallback)),
{
    match &props.fallback {
        Some(f) => {
            if !f.as_str().is_empty() {
                return f.clone();
            }
        },
        None => {},
    }
    let initials = derive_initials(props.alt.as_str());
    to_upper(initials.as_str())
}

/// The classes every avatar container carries, before the size-specific
/// ones.
pub open spec fn spec_avatar_base() -> Seq<char> {
    "relative flex shrink-0 overflow-hidden rounded-full"@
}

/// The full container class string of an avatar: base classes, size classes,
/// the muted background class when the image is not shown cleanly, and the
/// optional extra class, space-joined in that order.
pub open spec fn spec_container_class(
    size: AvatarSize,
    loaded: bool,
    error: bool,
    extra: Option<Seq<char>>,
) -> Seq<char> {
    spec_avatar_base() + " "@ + spec_size_classes(size) + " "@ + (if loaded && !error {
        Seq::<char>::empty()
    } else {
        "bg-muted"@
    }) + (match extra {
        Some(e) => " "@ + e,
        None => Seq::<char>::empty(),
    })
}

/// Builds the container class string for the given props and display state.
pub fn resolve_container_class(props: &AvatarProps, state: &DisplayState) -> (r: String)
    ensures
        r@ == spec_container_class(
            props.size,
            state.image_loaded,
            state.image_error,
            opt_view(props.class),
        ),
{
    let mut out = String::from_str("relative flex shrink-0 overflow-hidden rounded-full");
    out.append(" ");
    out.append(props.size.classes());
    out.append(" ");
    if !(state.image_loaded && !state.image_error) {
        out.append("bg-muted");
    }
    match &props.class {
        Some(e) => {
            out.append(" ");
            out.append(e.as_str());
        },
        None => {},
    }
    proof {
        assert(out@ =~= spec_container_class(
            props.size,
            state.image_loaded,
            state.image_error,
            opt_view(props.class),
        ));
    }
    out
}

/// The classes of the fallback text element, before the text-scale class.
pub open spec fn spec_fallback_base() -> Seq<char> {
    "flex h-full w-full items-center justify-center font-medium"@
}

/// The full class string of the fallback text element: centering and font
/// classes, then the size-specific text-scale class.
pub open spec fn spec_fallback_text_class(size: AvatarSize) -> Seq<char> {
    spec_fallback_base() + " "@ + spec_text_size(size)
}

/// Builds the fallback text class string for the given props.
pub fn resolve_fallback_text_class(props: &AvatarProps) -> (r: String)
    ensures
        r@ == spec_fallback_text_class(props.size),
{
    let mut out = String::from_str("flex h-full w-full items-center justify-center font-medium");
    out.append(" ");
    out.append(props.size.text_size());
    proof {
        assert(out@ =~= spec_fallback_text_class(props.size));
    }
    out
}

/// Which avatar size a size name selects, compared ignoring ASCII case; an
/// unrecognized name selects the default size.
pub open spec fn spec_parse_size(s: Seq<char>) -> AvatarSize {
    if seq_matches_ci(s, "sm"@) {
        AvatarSize::Sm
    } else if seq_matches_ci(s, "lg"@) {
        AvatarSize::Lg
    } else {
        AvatarSize::Default
    }
}

/// Parses an avatar size name case-insensitively; unrecognized names give
/// the default size, never an error.
pub fn parse_size(name: &str) -> (r: AvatarSize)
    ensures
        r == spec_parse_size(name@),
{
    if str_eq_ci(name, "sm") {
        AvatarSize::Sm
    } else if str_eq_ci(name, "lg") {
        AvatarSize::Lg
    } else {
        AvatarSize::Default
    }
}

/// Every avatar size maps to a non-empty dimension token and a non-empty
/// text-scale token, and distinct sizes map to distinct tokens of each kind.
pub proof fn lemma_size_tokens_distinct()
    ensures
        forall|s: AvatarSize| (#[trigger] spec_size_classes(s)).len() > 0,
        forall|s: AvatarSize| (#[trigger] spec_text_size(s)).len() > 0,
        forall|a: AvatarSize, b: AvatarSize|
            a != b ==> spec_size_classes(a) != spec_size_classes(b),
        forall|a: AvatarSize, b: AvatarSize| a != b ==> spec_text_size(a) != spec_text_size(b),
{
    reveal_strlit("h-8 w-8");
    reveal_strlit("h-10 w-10");
    reveal_strlit("h-12 w-12");
    reveal_strlit("text-xs");
    reveal_strlit("text-sm");
    reveal_strlit("text-base");
    assert("h-8 w-8"@.len() == 7);
    assert("h-10 w-10"@.len() == 9);
    assert("h-12 w-12"@.len() == 9);
    assert("h-10 w-10"@[3] != "h-12 w-12"@[3]);
    assert("text-xs"@.len() == 7);
    assert("text-sm"@.len() == 7);
    assert("text-base"@.len() == 9);
    assert("text-xs"@[5] != "text-sm"@[5]);
}

/// The container class string and the fallback text class string are
/// non-empty for every size, display state and extra class.
pub proof fn lemma_resolved_classes_nonempty(
    size: AvatarSize,
    loaded: bool,
    error: bool,
    extra: Option<Seq<char>>,
)
    ensures
        spec_container_class(size, loaded, error, extra).len() > 0,
        spec_fallback_text_class(size).len() > 0,
{
    reveal_strlit("relative flex shrink-0 overflow-hidden rounded-full");
    reveal_strlit("flex h-full w-full items-center justify-center font-medium");
}

/// Load and error events are idempotent: a repeated event leaves the display
/// state where the first one put it.
pub proof fn lemma_events_idempotent(s: DisplayState)
    ensures
        spec_after_load(spec_after_load(s)) == spec_after_load(s),
        spec_after_error(spec_after_error(s)) == spec_after_error(s),
{
}

/// Within a pair of opposite events the last one wins: error then load ends
/// loaded, load then error ends errored, whatever state came before.
pub proof fn lemma_last_event_wins(s: DisplayState)
    ensures
        spec_after_load(spec_after_error(s)) == spec_after_load(s),
        spec_after_load(spec_after_error(s)).image_loaded,
        !spec_after_load(spec_after_error(s)).image_error,
        spec_after_error(spec_after_load(s)) == spec_after_error(s),
        spec_after_error(spec_after_load(s)).image_error,
        !spec_after_error(spec_after_load(s)).image_loaded,
{
}

/// The initial state and both event transitions keep the display-state
/// invariant: the loaded and error flags are never both set.
pub proof fn lemma_events_preserve_wf(s: DisplayState, has_src: bool)
    ensures
        state_wf(spec_initial_state(has_src)),
        state_wf(spec_after_load(s)),
        state_wf(spec_after_error(s)),
{
}

} // verus!
