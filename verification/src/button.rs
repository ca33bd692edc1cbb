//! Button widget: style variants and sizes, their class strings, the name
//! adapters, and the click-dispatch decision.

use vstd::prelude::*;

verus! {

use vstd::string::StringExecFns;
use crate::text::seq_matches_ci;
use crate::text::str_eq_ci;
use crate::text::opt_view;

/// Style variant of a button.
#[derive(Debug, Clone, Copy, PartialEq, Eq, Structural)]
pub enum ButtonVariant {
    Default,
    Destructive,
    Outline,
    Secondary,
    Ghosted,
    Link,
}

/// Size of a button.
#[derive(Debug, Clone, Copy, PartialEq, Eq, Structural)]
pub enum ButtonSize {
    Default,
    Sm,
    Lg,
    Icon,
}

/// The variant-specific classes a button variant maps to.
pub open spec fn spec_variant_classes(v: ButtonVariant) -> Seq<char> {
    match v {
        ButtonVariant::Default => "bg-primary text-primary-foreground hover:bg-primary/90"@,
        ButtonVariant::Destructive => "bg-destructive text-destructive-foreground hover:bg-destructive/90"@,
        ButtonVariant::Outline => "border border-input bg-background hover:bg-accent hover:text-accent-foreground"@,
        ButtonVariant::Secondary => "bg-secondary text-secondary-foreground hover:bg-secondary/80"@,
        ButtonVariant::Ghosted => "hover:bg-accent hover:text-accent-foreground"@,
        ButtonVariant::Link => "text-primary underline-offset-4 hover:underline"@,
    }
}

/// The size-specific classes a button size maps to.
pub open spec fn spec_size_classes(s: ButtonSize) -> Seq<char> {
    match s {
        ButtonSize::Default => "h-10 px-4 py-2"@,
        ButtonSize::Sm => "h-9 rounded-md px-3"@,
        ButtonSize::Lg => "h-11 rounded-md px-8"@,
        ButtonSize::Icon => "h-10 w-10"@,
    }
}

/// The classes every button carries, before the variant and size ones.
pub open spec fn spec_button_base() -> Seq<char> {
    "inline-flex items-center justify-center whitespace-nowrap rounded-md text-sm font-medium ring-offset-background transition-colors focus-visible:outline-none focus-visible:ring-2 focus-visible:ring-ring focus-visible:ring-offset-2 disabled:pointer-events-none disabled:opacity-50"@
}

/// The full class string of a button: base classes, variant classes, size
/// classes, and the optional extra class, space-joined in that order.
pub open spec fn spec_button_class(v: ButtonVariant, s: ButtonSize, extra: Option<Seq<char>>) -> Seq<char> {
    spec_button_base() + " "@ + spec_variant_classes(v) + " "@ + spec_size_classes(s) + (match extra {
        Some(e) => " "@ + e,
        None => Seq::<char>::empty(),
    })
}

impl Default for ButtonVariant {
    /// The default button variant.
    fn default() -> (r: Self)
        ensures
            r == ButtonVariant::Default,
    {
        ButtonVariant::Default
    }
}

impl ButtonVariant {
    /// The variant-specific classes for this variant.
    pub fn classes(&self) -> (r: &'static str)
        ensures
            r@ == spec_variant_classes(*self),
    {
        match self {
            ButtonVariant::Default => "bg-primary text-primary-foreground hover:bg-primary/90",
            ButtonVariant::Destructive => "bg-destructive text-destructive-foreground hover:bg-destructive/90",
            ButtonVariant::Outline => "border border-input bg-background hover:bg-accent hover:text-accent-foreground",
            ButtonVariant::Secondary => "bg-secondary text-secondary-foreground hover:bg-secondary/80",
            ButtonVariant::Ghosted => "hover:bg-accent hover:text-accent-foreground",
            ButtonVariant::Link => "text-primary underline-offset-4 hover:underline",
        }
    }
}

impl Default for ButtonSize {
    /// The default button size.
    fn default() -> (r: Self)
        ensures
            r == ButtonSize::Default,
    {
        ButtonSize::Default
    }
}

impl ButtonSize {
    /// The size-specific classes for this size.
    pub fn classes(&self) -> (r: &'static str)
        ensures
            r@ == spec_size_classes(*self),
    {
        match self {
            ButtonSize::Default => "h-10 px-4 py-2",
            ButtonSize::Sm => "h-9 rounded-md px-3",
            ButtonSize::Lg => "h-11 rounded-md px-8",
            ButtonSize::Icon => "h-10 w-10",
        }
    }
}

/// Builds the full class string of a button with the given variant, size and
/// optional extra class.
pub fn button_class(variant: ButtonVariant, size: ButtonSize, extra: &Option<String>) -> (r: String)
    ensures
        r@ == spec_button_class(variant, size, opt_view(*extra)),
{
    let mut out = String::from_str(
        "inline-flex items-center justify-center whitespace-nowrap rounded-md text-sm font-medium ring-offset-background transition-colors focus-visible:outline-none focus-visible:ring-2 focus-visible:ring-ring focus-visible:ring-offset-2 disabled:pointer-events-none disabled:opacity-50",
    );
    out.append(" ");
    out.append(variant.classes());
    out.append(" ");
    out.append(size.classes());
    match extra {
        Some(e) => {
            out.append(" ");
            out.append(e.as_str());
        },
        None => {},
    }
    proof {
        assert(out@ =~= spec_button_class(variant, size, opt_view(*extra)));
    }
    out
}

/// Which button variant a variant name selects, compared ignoring ASCII
/// case; an unrecognized name selects the default variant.
pub open spec fn spec_parse_variant(s: Seq<char>) -> ButtonVariant {
    if seq_matches_ci(s, "destructive"@) {
        ButtonVariant::Destructive
    } else if seq_matches_ci(s, "outline"@) {
        ButtonVariant::Outline
    } else if seq_matches_ci(s, "secondary"@) {
        ButtonVariant::Secondary
    } else if seq_matches_ci(s, "ghost"@) {
        ButtonVariant::Ghosted
    } else if seq_matches_ci(s, "link"@) {
        ButtonVariant::Link
    } else {
        ButtonVariant::Default
    }
}

/// Parses a button variant name case-insensitively; unrecognized names give
/// the default variant, never an error.
pub fn parse_variant(name: &str) -> (r: ButtonVariant)
    ensures
        r == spec_parse_variant(name@),
{
    if str_eq_ci(name, "destructive") {
        ButtonVariant::Destructive
    } else if str_eq_ci(name, "outline") {
        ButtonVariant::Outline
    } else if str_eq_ci(name, "secondary") {
        ButtonVariant::Secondary
    } else if str_eq_ci(name, "ghost") {
        ButtonVariant::Ghosted
    } else if str_eq_ci(name, "link") {
        ButtonVariant::Link
    } else {
        ButtonVariant::Default
    }
}

/// Which button size a size name selects, compared ignoring ASCII case; an
/// unrecognized name selects the default size.
pub open spec fn spec_parse_size(s: Seq<char>) -> ButtonSize {
    if seq_matches_ci(s, "sm"@) {
        ButtonSize::Sm
    } else if seq_matches_ci(s, "lg"@) {
        ButtonSize::Lg
    } else if seq_matches_ci(s, "icon"@) {
        ButtonSize::Icon
    } else {
        ButtonSize::Default
    }
}

/// Parses a button size name case-insensitively; unrecognized names give the
/// default size, never an error.
pub fn parse_size(name: &str) -> (r: ButtonSize)
    ensures
        r == spec_parse_size(name@),
{
    if str_eq_ci(name, "sm") {
        ButtonSize::Sm
    } else if str_eq_ci(name, "lg") {
        ButtonSize::Lg
    } else if str_eq_ci(name, "icon") {
        ButtonSize::Icon
    } else {
        ButtonSize::Default
    }
}

/// Whether a click on the button must be forwarded to the caller-supplied
/// handler: only when the button is enabled and a handler was supplied.
pub fn click_invokes_handler(disabled: bool, has_handler: bool) -> (r: bool)
    ensures
        r == (!disabled && has_handler),
{
    !disabled && has_handler
}

} // verus!
