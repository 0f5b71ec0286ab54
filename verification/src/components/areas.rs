//! The two splits that the panes of the editor stand in.

use vstd::prelude::*;
use crate::ui::container::{Container, ContainerType, InsertError};
use crate::ui::framework::Framework;

verus! {

/// The split that holds the editors: it stacks them, and leaves the
/// unfocused one a single row.
pub struct EditorArea {
    container: Container,
}

/// The split that holds the project viewer and the editor area side by side,
/// and leaves the unfocused one a single column. The focus starts in it.
pub struct WorkArea {
    container: Container,
}

/// The split of the editor area.
pub open spec fn editor_area_kind() -> ContainerType {
    ContainerType::Father { primary: None, secondary: None, vert_layout: true, all_own: true }
}

/// The split of the work area.
pub open spec fn work_area_kind() -> ContainerType {
    ContainerType::Father { primary: None, secondary: None, vert_layout: false, all_own: true }
}

impl EditorArea {
    #[verifier::type_invariant]
    spec fn is_new(self) -> bool {
        self.container.is_pane("EditorArea"@, editor_area_kind(), false)
    }

    /// The pane of the area.
    pub closed spec fn pane(self) -> Container {
        self.container
    }

    pub fn new() -> (r: EditorArea)
        ensures
            r.pane().is_pane("EditorArea"@, editor_area_kind(), false),
    {
        let kind = ContainerType::Father {
            primary: None,
            secondary: None,
            vert_layout: true,
            all_own: true,
        };
        EditorArea { container: Container::with_type("EditorArea", kind, false) }
    }

    /// Puts the area into the work area of the tree.
    pub fn bind_to(self, framework: &mut Framework) -> (r: Result<(), InsertError>)
        ensures
            r == match old(framework)@.bind_error("/WorkArea"@) {
                Some(e) => Err::<(), InsertError>(e),
                None => Ok::<(), InsertError>(()),
            },
            r is Err ==> final(framework)@ == old(framework)@,
            r is Ok ==> old(framework)@.gained(
                final(framework)@,
                "/WorkArea"@,
                "EditorArea"@,
                editor_area_kind(),
                false,
            ),
    {
        proof {
            use_type_invariant(&self);
        }
        framework.add_container("/WorkArea", self.container)
    }
}

impl WorkArea {
    #[verifier::type_invariant]
    spec fn is_new(self) -> bool {
        self.container.is_pane("WorkArea"@, work_area_kind(), true)
    }

    /// The pane of the area.
    pub closed spec fn pane(self) -> Container {
        self.container
    }

    pub fn new() -> (r: WorkArea)
        ensures
            r.pane().is_pane("WorkArea"@, work_area_kind(), true),
    {
        let kind = ContainerType::Father {
            primary: None,
            secondary: None,
            vert_layout: false,
            all_own: true,
        };
        WorkArea { container: Container::with_type("WorkArea", kind, true) }
    }

    /// Puts the area directly under the root of the tree.
    pub fn bind_to(self, framework: &mut Framework) -> (r: Result<(), InsertError>)
        ensures
            r == match old(framework)@.bind_error("/"@) {
                Some(e) => Err::<(), InsertError>(e),
                None => Ok::<(), InsertError>(()),
            },
            r is Err ==> final(framework)@ == old(framework)@,
            r is Ok ==> old(framework)@.gained(
                final(framework)@,
                "/"@,
                "WorkArea"@,
                work_area_kind(),
                true,
            ),
    {
        proof {
            use_type_invariant(&self);
        }
        framework.add_container("/", self.container)
    }
}

} // verus!
