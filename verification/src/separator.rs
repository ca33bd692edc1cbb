//! Separator (divider) widget: orientation variants and their class strings.

use vstd::prelude::*;

verus! {

use vstd::string::StringExecFns;

/// Orientation of a separator line.
#[derive(Debug, Clone, Copy, PartialEq, Eq, Structural)]
pub enum SeparatorOrientation {
    Horizontal,
    Vertical,
}

/// The dimension classes a separator orientation maps to.
pub open spec fn spec_orientation_classes(o: SeparatorOrientation) -> Seq<char> {
    match o {
        SeparatorOrientation::Horizontal => "h-[1px] w-full"@,
        SeparatorOrientation::Vertical => "h-full w-[1px]"@,
    }
}

impl Default for SeparatorOrientation {
    /// The default orientation is horizontal.
    fn default() -> (r: Self)
        ensures
            r == SeparatorOrientation::Horizontal,
    {
        SeparatorOrientation::Horizontal
    }
}

impl SeparatorOrientation {
    /// The dimension classes for this orientation.
    pub fn classes(&self) -> (r: &'static str)
        ensures
            r@ == spec_orientation_classes(*self),
    {
        match self {
            SeparatorOrientation::Horizontal => "h-[1px] w-full",
            SeparatorOrientation::Vertical => "h-full w-[1px]",
        }
    }

    /// The `aria-orientation` token for this orientation.
    pub fn aria_orientation(&self) -> (r: &'static str)
        ensures
            *self == SeparatorOrientation::Horizontal ==> r@ == "horizontal"@,
            *self == SeparatorOrientation::Vertical ==> r@ == "vertical"@,
    {
        match self {
            SeparatorOrientation::Horizontal => "horizontal",
            SeparatorOrientation::Vertical => "vertical",
        }
    }
}

/// The classes every separator carries, before the orientation ones.
pub open spec fn spec_separator_base() -> Seq<char> {
    "shrink-0 bg-border"@
}

/// The full class string of a separator: base classes, the orientation
/// classes, and the optional caller-supplied extra class, space-joined in
/// that order.
pub open spec fn spec_separator_class(o: SeparatorOrientation, extra: Option<Seq<char>>) -> Seq<char> {
    spec_separator_base() + " "@ + spec_orientation_classes(o) + (match extra {
        Some(e) => " "@ + e,
        None => Seq::<char>::empty(),
    })
}

/// Builds the full class string of a separator with the given orientation
/// and optional extra class.
pub fn separator_class(orientation: SeparatorOrientation, extra: &Option<String>) -> (r: String)
    ensures
        r@ == spec_separator_class(orientation, crate::text::opt_view(*extra)),
{
    let mut out = String::from_str("shrink-0 bg-border");
    out.append(" ");
    out.append(orientation.classes());
    match extra {
        Some(e) => {
            out.append(" ");
            out.append(e.as_str());
        },
        None => {},
    }
    proof {
        assert(out@ =~= spec_separator_class(orientation, crate::text::opt_view(*extra)));
    }
    out
}

} // verus!
