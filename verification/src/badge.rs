//! Badge widget: style variants, their class strings, and the name adapter.

use vstd::prelude::*;

verus! {

use vstd::string::StringExecFns;
use crate::text::opt_view;
use crate::text::seq_matches_ci;
use crate::text::str_eq_ci;

/// Style variant of a badge.
#[derive(Debug, Clone, Copy, PartialEq, Eq, Structural)]
pub enum BadgeVariant {
    Default,
    Secondary,
    Destructive,
    Outline,
}

/// The variant-specific classes a badge variant maps to.
pub open spec fn spec_variant_classes(v: BadgeVariant) -> Seq<char> {
    match v {
        BadgeVariant::Default => "border-transparent bg-primary text-primary-foreground hover:bg-primary/80"@,
        BadgeVariant::Secondary => "border-transparent bg-secondary text-secondary-foreground hover:bg-secondary/80"@,
        BadgeVariant::Destructive => "border-transparent bg-destructive text-destructive-foreground hover:bg-destructive/80"@,
        BadgeVariant::Outline => "text-foreground"@,
    }
}

/// The classes every badge carries, before the variant-specific ones.
pub open spec fn spec_badge_base() -> Seq<char> {
    "inline-flex items-center rounded-full border px-2.5 py-0.5 text-xs font-semibold transition-colors focus:outline-none focus:ring-2 focus:ring-ring focus:ring-offset-2"@
}

/// The full class string of a badge: base classes, the variant classes, and
/// the optional caller-supplied extra class, space-joined in that order.
pub open spec fn spec_badge_class(v: BadgeVariant, extra: Option<Seq<char>>) -> Seq<char> {
    spec_badge_base() + " "@ + spec_variant_classes(v) + (match extra {
        Some(e) => " "@ + e,
        None => Seq::<char>::empty(),
    })
}

impl Default for BadgeVariant {
    /// The default badge variant.
    fn default() -> (r: Self)
        ensures
            r == BadgeVariant::Default,
    {
        BadgeVariant::Default
    }
}

impl BadgeVariant {
    /// The variant-specific classes for this variant.
    pub fn classes(&self) -> (r: &'static str)
        ensures
            r@ == spec_variant_classes(*self),
    {
        match self {
            BadgeVariant::Default => "border-transparent bg-primary text-primary-foreground hover:bg-primary/80",
            BadgeVariant::Secondary => "border-transparent bg-secondary text-secondary-foreground hover:bg-secondary/80",
            BadgeVariant::Destructive => "border-transparent bg-destructive text-destructive-foreground hover:bg-destructive/80",
            BadgeVariant::Outline => "text-foreground",
        }
    }
}

/// Builds the full class string of a badge with the given variant and
/// optional extra class.
pub fn badge_class(variant: BadgeVariant, extra: &Option<String>) -> (r: String)
    ensures
        r@ == spec_badge_class(variant, opt_view(*extra)),
{
    let mut out = String::from_str(
        "inline-flex items-center rounded-full border px-2.5 py-0.5 text-xs font-semibold transition-colors focus:outline-none focus:ring-2 focus:ring-ring focus:ring-offset-2",
    );
    out.append(" ");
    out.append(variant.classes());
    match extra {
        Some(e) => {
            out.append(" ");
            out.append(e.as_str());
        },
        None => {},
    }
    proof {
        assert(out@ =~= spec_badge_class(variant, opt_view(*extra)));
    }
    out
}

/// Which badge variant a variant name selects, compared ignoring ASCII case;
/// an unrecognized name selects the default variant.
pub open spec fn spec_parse_variant(s: Seq<char>) -> BadgeVariant {
    if seq_matches_ci(s, "secondary"@) {
        BadgeVariant::Secondary
    } else if seq_matches_ci(s, "destructive"@) {
        BadgeVariant::Destructive
    } else if seq_matches_ci(s, "outline"@) {
        BadgeVariant::Outline
    } else {
        BadgeVariant::Default
    }
}

/// Parses a badge variant name case-insensitively; unrecognized names give
/// the default variant, never an error.
pub fn parse_variant(name: &str) -> (r: BadgeVariant)
    ensures
        r == spec_parse_variant(name@),
{
    if str_eq_ci(name, "secondary") {
        BadgeVariant::Secondary
    } else if str_eq_ci(name, "destructive") {
        BadgeVariant::Destructive
    } else if str_eq_ci(name, "outline") {
        BadgeVariant::Outline
    } else {
        BadgeVariant::Default
    }
}

} // verus!
