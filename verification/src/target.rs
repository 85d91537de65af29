//! Where the grid scrolls: in a container of its own, or with the window.
use vstd::prelude::*;

verus! {

/// Scroll target for the virtual grid.
#[derive(Clone, Copy, Debug, PartialEq, Eq, Structural)]
pub enum ScrollTarget {
    /// Grid has its own scrollable container (default).
    Container,
    /// Use window/body scrolling.
    Window,
}

impl Default for ScrollTarget {
    /// The grid scrolls in its own container unless told otherwise.
    fn default() -> (target: ScrollTarget)
        ensures
            target == ScrollTarget::Container,
    {
        ScrollTarget::Container
    }
}

/// CSS classes of the grid's outer element for a scroll target: a container
/// of its own scrolls vertically and takes the caller's classes (which must
/// bound its height); with window scrolling the caller's classes are unused.
pub open spec fn container_class_for(target: ScrollTarget, container_class: Seq<char>) -> Seq<char> {
    match target {
        ScrollTarget::Container => "virtual-grid-container w-full overflow-y-auto "@ + container_class,
        ScrollTarget::Window => "virtual-grid-container w-full"@,
    }
}

impl ScrollTarget {
    /// The CSS classes of the grid's outer element.
    pub fn container_class(&self, container_class: &str) -> (class: String)
        ensures
            class@ == container_class_for(*self, container_class@),
            *self == ScrollTarget::Container ==> class@
                == "virtual-grid-container w-full overflow-y-auto "@ + container_class@,
            *self == ScrollTarget::Window ==> class@ == "virtual-grid-container w-full"@,
    {
        match self {
            ScrollTarget::Container => {
                let mut class = String::from_str("virtual-grid-container w-full overflow-y-auto ");
                class.append(container_class);
                class
            },
            ScrollTarget::Window => String::from_str("virtual-grid-container w-full"),
        }
    }
}

/// A grid scrolling in its own container keeps every class the caller gives
/// (which carry its height constraint) after the fixed classes that make it
/// scroll, whatever the caller's string is.
pub proof fn lemma_container_keeps_caller_classes(container_class: Seq<char>)
    ensures
        container_class_for(ScrollTarget::Container, container_class)
            == "virtual-grid-container w-full overflow-y-auto "@ + container_class,
        container_class_for(ScrollTarget::Container, container_class).len()
            == "virtual-grid-container w-full overflow-y-auto "@.len() + container_class.len(),
        container_class_for(ScrollTarget::Container, container_class).subrange(
            "virtual-grid-container w-full overflow-y-auto "@.len() as int,
            container_class_for(ScrollTarget::Container, container_class).len() as int,
        ) == container_class,
{
    let prefix = "virtual-grid-container w-full overflow-y-auto "@;
    assert((prefix + container_class).subrange(prefix.len() as int, (prefix + container_class).len() as int)
        =~= container_class);
}

/// With window scrolling the caller's classes are ignored: any two class
/// strings give the same classes, the fixed ones.
pub proof fn lemma_window_ignores_caller_classes(a: Seq<char>, b: Seq<char>)
    ensures
        container_class_for(ScrollTarget::Window, a) == container_class_for(ScrollTarget::Window, b),
        container_class_for(ScrollTarget::Window, a) == "virtual-grid-container w-full"@,
{
}

} // verus!
