//! The commands a front-end submits, and the delivery class of each.

use vstd::prelude::*;

verus! {

/// How a command may be delivered.
#[derive(Clone, Copy, Debug, PartialEq, Eq, Structural)]
pub enum DeliveryClass {
    /// Only the newest command of a burst matters; older ones may be discarded.
    Droppable,
    /// Delivered exactly once, in submission order.
    Guaranteed,
}

/// The tag of a command, without its payload.
#[derive(Clone, Copy, Debug, PartialEq, Eq, Structural)]
pub enum CommandKind {
    Quit,
    Resize,
    Keyboard,
    MouseButton,
    Scroll,
    Drag,
    FileDrop,
    FocusLost,
    FocusGained,
    RegisterRightClick,
    UnregisterRightClick,
}

impl CommandKind {
    /// The delivery class of every command with this tag.
    pub open spec fn class(self) -> DeliveryClass {
        match self {
            CommandKind::Resize | CommandKind::Scroll | CommandKind::Drag => DeliveryClass::Droppable,
            _ => DeliveryClass::Guaranteed,
        }
    }
}

/// One user-intent action, as the front-end produced it.
#[derive(Debug)]
pub enum UiCommand {
    Quit,
    Resize { width: u32, height: u32 },
    /// Input notation, forwarded as it is.
    Keyboard(String),
    /// `position` is (column, row).
    MouseButton { action: String, grid_id: u64, position: (u32, u32) },
    /// `position` is (column, row).
    Scroll { direction: String, grid_id: u64, position: (u32, u32) },
    /// `position` is (column, row).
    Drag { grid_id: u64, position: (u32, u32) },
    /// Path of a file dropped on the window.
    FileDrop(String),
    FocusLost,
    FocusGained,
    /// Add the shell's context-menu entries (platform-specific).
    RegisterRightClick,
    /// Remove the shell's context-menu entries (platform-specific).
    UnregisterRightClick,
}

impl Clone for UiCommand {
    fn clone(&self) -> (copy: Self)
        ensures
            copy == *self,
    {
        match self {
            UiCommand::Quit => UiCommand::Quit,
            UiCommand::Resize { width, height } => UiCommand::Resize {
                width: *width,
                height: *height,
            },
            UiCommand::Keyboard(text) => UiCommand::Keyboard(text.clone()),
            UiCommand::MouseButton { action, grid_id, position } => UiCommand::MouseButton {
                action: action.clone(),
                grid_id: *grid_id,
                position: (position.0, position.1),
            },
            UiCommand::Scroll { direction, grid_id, position } => UiCommand::Scroll {
                direction: direction.clone(),
                grid_id: *grid_id,
                position: (position.0, position.1),
            },
            UiCommand::Drag { grid_id, position } => UiCommand::Drag {
                grid_id: *grid_id,
                position: (position.0, position.1),
            },
            UiCommand::FileDrop(path) => UiCommand::FileDrop(path.clone()),
            UiCommand::FocusLost => UiCommand::FocusLost,
            UiCommand::FocusGained => UiCommand::FocusGained,
            UiCommand::RegisterRightClick => UiCommand::RegisterRightClick,
            UiCommand::UnregisterRightClick => UiCommand::UnregisterRightClick,
        }
    }
}

impl UiCommand {
    /// The tag of this command.
    pub open spec fn spec_kind(self) -> CommandKind {
        match self {
            UiCommand::Quit => CommandKind::Quit,
            UiCommand::Resize { .. } => CommandKind::Resize,
            UiCommand::Keyboard(_) => CommandKind::Keyboard,
            UiCommand::MouseButton { .. } => CommandKind::MouseButton,
            UiCommand::Scroll { .. } => CommandKind::Scroll,
            UiCommand::Drag { .. } => CommandKind::Drag,
            UiCommand::FileDrop(_) => CommandKind::FileDrop,
            UiCommand::FocusLost => CommandKind::FocusLost,
            UiCommand::FocusGained => CommandKind::FocusGained,
            UiCommand::RegisterRightClick => CommandKind::RegisterRightClick,
            UiCommand::UnregisterRightClick => CommandKind::UnregisterRightClick,
        }
    }

    /// The delivery class of this command: that of its tag.
    pub open spec fn delivery_class(self) -> DeliveryClass {
        self.spec_kind().class()
    }

    /// Whether a newer command of the same burst may supersede this one.
    pub open spec fn droppable(self) -> bool {
        self.delivery_class() == DeliveryClass::Droppable
    }

    /// The tag of this command.
    pub fn kind(&self) -> (k: CommandKind)
        ensures
            k == self.spec_kind(),
    {
        match self {
            UiCommand::Quit => CommandKind::Quit,
            UiCommand::Resize { .. } => CommandKind::Resize,
            UiCommand::Keyboard(_) => CommandKind::Keyboard,
            UiCommand::MouseButton { .. } => CommandKind::MouseButton,
            UiCommand::Scroll { .. } => CommandKind::Scroll,
            UiCommand::Drag { .. } => CommandKind::Drag,
            UiCommand::FileDrop(_) => CommandKind::FileDrop,
            UiCommand::FocusLost => CommandKind::FocusLost,
            UiCommand::FocusGained => CommandKind::FocusGained,
            UiCommand::RegisterRightClick => CommandKind::RegisterRightClick,
            UiCommand::UnregisterRightClick => CommandKind::UnregisterRightClick,
        }
    }

    /// True for resize, scroll and drag commands, and for no other.
    pub fn ok_to_drop(&self) -> (drop: bool)
        ensures
            drop == self.droppable(),
            drop <==> (self is Resize || self is Scroll || self is Drag),
    {
        match self {
            UiCommand::Resize { .. } | UiCommand::Scroll { .. } | UiCommand::Drag { .. } => true,
            _ => false,
        }
    }

    /// The delivery class of this command.
    pub fn classify(&self) -> (class: DeliveryClass)
        ensures
            class == self.delivery_class(),
            class == DeliveryClass::Droppable <==> (self is Resize || self is Scroll || self
                is Drag),
            class == DeliveryClass::Guaranteed <==> !(self is Resize || self is Scroll || self
                is Drag),
    {
        if self.ok_to_drop() {
            DeliveryClass::Droppable
        } else {
            DeliveryClass::Guaranteed
        }
    }
}

/// Every command has exactly one delivery class, and the droppable commands are
/// the resize, scroll and drag commands.
pub proof fn lemma_class_exhaustive(command: UiCommand)
    ensures
        command.delivery_class() == DeliveryClass::Droppable || command.delivery_class()
            == DeliveryClass::Guaranteed,
        !(command.delivery_class() == DeliveryClass::Droppable && command.delivery_class()
            == DeliveryClass::Guaranteed),
        command.droppable() <==> (command is Resize || command is Scroll || command is Drag),
{
}

/// Two commands with the same tag have the same delivery class, whatever their
/// payloads are.
pub proof fn lemma_class_ignores_payload(a: UiCommand, b: UiCommand)
    requires
        a.spec_kind() == b.spec_kind(),
    ensures
        a.delivery_class() == b.delivery_class(),
        a.droppable() == b.droppable(),
{
}

} // verus!
