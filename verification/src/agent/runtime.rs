//! The agent's main loop: what each event does, and when the OS hook is
//! installed.

use crate::config::Config;
use crate::device::DeviceInventory;
use crate::ipc::{AgentStatus, PermissionStatus, PROTOCOL_VERSION};
use crate::orchestrator::{is_refreshed, InventoryState, Orchestrator, RefreshOutcome};
use vstd::prelude::*;

verus! {

/// What the inventory watcher reports.
#[derive(Debug)]
pub enum InventoryEvent {
    /// An enumeration completed.
    Snapshot(Vec<DeviceInventory>),
    /// Enumeration does not work.
    Unavailable,
    /// The system woke from sleep.
    SystemWake,
}

/// What is done about the OS hook.
#[derive(Clone, Copy, Debug, PartialEq, Eq, Structural)]
pub enum HookAction {
    /// It stays as it is.
    Keep,
    /// It is dropped.
    Drop,
    /// It is installed; the outcome is reported to [`AgentLoop::hook_started`].
    Install,
    /// It is left out because capturing is switched off.
    SwitchedOff,
}

/// The state of the main loop.
#[derive(Clone, Copy, Debug, PartialEq, Eq, Structural)]
pub struct AgentLoop {
    /// Whether mouse events are captured at all; read once at startup.
    pub capture_mouse_events: bool,
    /// Whether the hook is installed.
    pub hook_installed: bool,
    /// Whether the inventory watcher still reports.
    pub inventory_open: bool,
}

impl AgentLoop {
    /// The loop of a starting agent.
    #[must_use]
    pub fn new(config: &Config) -> (state: AgentLoop)
        ensures
            state == (AgentLoop {
                capture_mouse_events: config@.app_settings.capture_mouse_events,
                hook_installed: false,
                inventory_open: true,
            }),
    {
        AgentLoop {
            capture_mouse_events: config.app_settings.capture_mouse_events,
            hook_installed: false,
            inventory_open: true,
        }
    }

    /// Whether the Accessibility prompt is shown at startup: only when the hook is
    /// wanted and not yet trusted.
    #[must_use]
    pub fn prompts_for_accessibility(&self, trusted: bool) -> (prompt: bool)
        ensures
            prompt == (self.capture_mouse_events && !trusted),
    {
        self.capture_mouse_events && !trusted
    }

    /// The inventory watcher reported; `None` means that it is gone.
    pub fn inventory_event(
        &mut self,
        orchestrator: &mut Orchestrator,
        event: Option<InventoryEvent>,
    ) -> (outcome: Option<RefreshOutcome>)
        ensures
            final(self).capture_mouse_events == old(self).capture_mouse_events,
            final(self).hook_installed == old(self).hook_installed,
            final(self).inventory_open == (old(self).inventory_open && event is Some),
            match event {
                Some(InventoryEvent::Snapshot(inventories)) => {
                    &&& outcome matches Some(outcome)
                    &&& is_refreshed(
                        *old(orchestrator),
                        *final(orchestrator),
                        inventories,
                        outcome,
                    )
                },
                Some(InventoryEvent::SystemWake) => {
                    &&& outcome is None
                    &&& *final(orchestrator) == (Orchestrator {
                        reapply_all_next_refresh: true,
                        ..*old(orchestrator)
                    })
                },
                _ => {
                    &&& outcome is None
                    &&& *final(orchestrator) == (Orchestrator {
                        inventory: if old(orchestrator).inventory is Pending {
                            InventoryState::Unavailable
                        } else {
                            old(orchestrator).inventory
                        },
                        ..*old(orchestrator)
                    })
                },
            },
    {
        match event {
            Some(InventoryEvent::Snapshot(inventories)) => Some(
                orchestrator.refresh_inventory(inventories),
            ),
            Some(InventoryEvent::Unavailable) => {
                orchestrator.mark_inventory_unavailable();
                None
            },
            Some(InventoryEvent::SystemWake) => {
                orchestrator.reapply_volatile_on_next_refresh();
                None
            },
            None => {
                orchestrator.mark_inventory_unavailable();
                self.inventory_open = false;
                None
            },
        }
    }

    /// The Accessibility permission was granted or revoked. A revoked permission
    /// drops the hook; a granted one installs it unless it is installed already or
    /// capturing is switched off.
    pub fn accessibility_changed(&mut self, granted: bool) -> (action: HookAction)
        ensures
            action == if !granted {
                HookAction::Drop
            } else if old(self).hook_installed {
                HookAction::Keep
            } else if old(self).capture_mouse_events {
                HookAction::Install
            } else {
                HookAction::SwitchedOff
            },
            *final(self) == (AgentLoop {
                hook_installed: granted && old(self).hook_installed,
                ..*old(self)
            }),
    {
        if !granted {
            self.hook_installed = false;
            HookAction::Drop
        } else if self.hook_installed {
            HookAction::Keep
        } else if self.capture_mouse_events {
            HookAction::Install
        } else {
            HookAction::SwitchedOff
        }
    }

    /// The hook was asked for; it may not have come up.
    pub fn hook_started(&mut self, installed: bool)
        ensures
            *final(self) == (AgentLoop { hook_installed: installed, ..*old(self) }),
    {
        self.hook_installed = installed;
    }

    /// The status and the inventory as one poll result, taken from one state.
    #[must_use]
    pub fn snapshot<'a>(
        &self,
        orchestrator: &'a Orchestrator,
        accessibility_granted: bool,
        agent_version: String,
        input_monitoring: PermissionStatus,
    ) -> (snapshot: (AgentStatus, Vec<&'a DeviceInventory>))
        ensures
            snapshot.0 == (AgentStatus {
                accessibility_granted,
                hook_installed: self.hook_installed,
                launch_at_login: orchestrator.config@.app_settings.launch_at_login,
                inventory: orchestrator.health(),
                protocol_version: PROTOCOL_VERSION,
                agent_version,
                input_monitoring,
            }),
            match orchestrator.inventory {
                InventoryState::Ready(inventories) => {
                    &&& snapshot.1@.len() == inventories@.len()
                    &&& forall|i: int|
                        0 <= i < inventories@.len() ==> *(#[trigger] snapshot.1@[i])
                            == inventories@[i]
                },
                _ => snapshot.1@.len() == 0,
            },
    {
        (
            self.status(orchestrator, accessibility_granted, agent_version, input_monitoring),
            orchestrator.inventory(),
        )
    }

    /// The status that the window polls.
    #[must_use]
    pub fn status(
        &self,
        orchestrator: &Orchestrator,
        accessibility_granted: bool,
        agent_version: String,
        input_monitoring: PermissionStatus,
    ) -> (status: AgentStatus)
        ensures
            status == (AgentStatus {
                accessibility_granted,
                hook_installed: self.hook_installed,
                launch_at_login: orchestrator.config@.app_settings.launch_at_login,
                inventory: orchestrator.health(),
                protocol_version: PROTOCOL_VERSION,
                agent_version,
                input_monitoring,
            }),
    {
        AgentStatus {
            accessibility_granted,
            hook_installed: self.hook_installed,
            launch_at_login: orchestrator.launch_at_login(),
            inventory: orchestrator.inventory_health(),
            protocol_version: PROTOCOL_VERSION,
            agent_version,
            input_monitoring,
        }
    }
}

} // verus!
