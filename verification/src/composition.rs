//! What the application is assembled from at start: the desktop
//! capabilities, and what the stored state of a window covers.

use crate::identity::Platform;
use vstd::prelude::*;

verus! {

/// A desktop-integration capability that the application registers.
#[derive(Clone, Copy, PartialEq, Eq, Debug, Structural)]
pub enum Capability {
    /// Read-only queries about the platform.
    OsInfo,
    /// A durable store of keys and values.
    Store,
    /// Access to files.
    FileSystem,
    /// Native dialogs.
    Dialog,
    /// At most one running instance of the application.
    SingleInstance,
    /// Window geometry that outlasts a restart.
    WindowState,
}

/// A part of a window's state that can be stored and restored.
#[derive(Clone, Copy, PartialEq, Eq, Debug, Structural)]
pub enum StateFlag {
    Size,
    Position,
    Maximized,
    Visible,
    Decorations,
    Fullscreen,
}

/// The capabilities of the application on `platform`, in the order of
/// their registration. Window state is kept on Windows only.
pub open spec fn capabilities_of(platform: Platform) -> Seq<Capability> {
    let common = seq![
        Capability::OsInfo,
        Capability::Store,
        Capability::FileSystem,
        Capability::Dialog,
        Capability::SingleInstance,
    ];
    if platform == Platform::Windows {
        common.push(Capability::WindowState)
    } else {
        common
    }
}

/// Whether a part of a window's state is stored: all but its visibility
/// and its decorations.
pub open spec fn is_stored(flag: StateFlag) -> bool {
    flag != StateFlag::Visible && flag != StateFlag::Decorations
}

/// The capabilities to register on `platform`, in order.
pub fn capabilities(platform: Platform) -> (list: Vec<Capability>)
    ensures
        list@ == capabilities_of(platform),
{
    let mut list: Vec<Capability> = Vec::new();
    list.push(Capability::OsInfo);
    list.push(Capability::Store);
    list.push(Capability::FileSystem);
    list.push(Capability::Dialog);
    list.push(Capability::SingleInstance);
    match platform {
        Platform::Windows => {
            list.push(Capability::WindowState);
        },
        _ => {},
    }
    assert(list@ =~= capabilities_of(platform));
    list
}

/// Whether `flag` is among what is stored of a window.
pub fn stores(flag: StateFlag) -> (stored: bool)
    ensures
        stored == is_stored(flag),
{
    match flag {
        StateFlag::Visible | StateFlag::Decorations => false,
        _ => true,
    }
}

} // verus!
