use vstd::prelude::*;
use crate::mock_data::{HostInfo, VmInfo, ContainerInfo, IsolatedPodInfo, IsolatedPodContainer, LogEntry, get_mock_host_info, get_mock_vms, get_mock_containers, get_mock_isolated_pods, get_mock_cpu_history, get_mock_memory_history, get_mock_feos_logs, get_mock_kernel_logs, get_new_feos_log_entries, get_new_kernel_log_entries, tick_updates};

verus! {

/// The view currently shown.
#[derive(Debug, Clone, Copy, PartialEq, Eq, Structural)]
pub enum CurrentView {
    Dashboard,
    VMs,
    Containers,
    IsolatedPods,
    Logs,
}

impl CurrentView {
    /// The tab titles, in view order.
    pub fn titles() -> (r: Vec<&'static str>)
        ensures
            r@.len() == 5,
    {
        let mut v: Vec<&'static str> = Vec::new();
        v.push("Dashboard");
        v.push("VMs");
        v.push("Containers");
        v.push("Isolated Pods");
        v.push("Logs");
        v
    }

    /// The view at a tab index; out-of-range indexes fall back to the
    /// dashboard.
    pub fn from_index(index: usize) -> (r: CurrentView)
        ensures
            r == spec_view_of_index(index as int),
    {
        match index {
            0 => CurrentView::Dashboard,
            1 => CurrentView::VMs,
            2 => CurrentView::Containers,
            3 => CurrentView::IsolatedPods,
            4 => CurrentView::Logs,
            _ => CurrentView::Dashboard,
        }
    }

    /// The tab index of a view.
    pub fn to_index(self) -> (r: usize)
        ensures
            r == spec_index_of_view(self),
            r < 5,
    {
        match self {
            CurrentView::Dashboard => 0,
            CurrentView::VMs => 1,
            CurrentView::Containers => 2,
            CurrentView::IsolatedPods => 3,
            CurrentView::Logs => 4,
        }
    }
}

/// The view a tab index selects.
pub open spec fn spec_view_of_index(index: int) -> CurrentView {
    if index == 0 {
        CurrentView::Dashboard
    } else if index == 1 {
        CurrentView::VMs
    } else if index == 2 {
        CurrentView::Containers
    } else if index == 3 {
        CurrentView::IsolatedPods
    } else if index == 4 {
        CurrentView::Logs
    } else {
        CurrentView::Dashboard
    }
}

/// The tab index of a view.
pub open spec fn spec_index_of_view(v: CurrentView) -> int {
    match v {
        CurrentView::Dashboard => 0,
        CurrentView::VMs => 1,
        CurrentView::Containers => 2,
        CurrentView::IsolatedPods => 3,
        CurrentView::Logs => 4,
    }
}

/// Tab indexing round-trips: a view's index selects that view again.
pub proof fn lemma_view_index_round_trip(v: CurrentView)
    ensures
        spec_view_of_index(spec_index_of_view(v)) == v,
{
}

/// A system action offered by the system modal.
#[derive(Debug, Clone, Copy, PartialEq, Eq, Structural)]
pub enum SystemAction {
    Reboot,
    Shutdown,
    Cancel,
}

impl SystemAction {
    /// The display name of the action.
    pub fn as_str(&self) -> (r: &'static str)
        ensures
            *self == SystemAction::Reboot ==> r@ == "Reboot System"@,
            *self == SystemAction::Shutdown ==> r@ == "Shutdown System"@,
            *self == SystemAction::Cancel ==> r@ == "Cancel"@,
    {
        match self {
            SystemAction::Reboot => "Reboot System",
            SystemAction::Shutdown => "Shutdown System",
            SystemAction::Cancel => "Cancel",
        }
    }
}

/// The whole interface state: the shown data, the selections, and the
/// modal and scrolling state.
pub struct App {
    pub should_quit: bool,
    pub current_view: CurrentView,
    pub host_info: HostInfo,
    pub vms: Vec<VmInfo>,
    pub containers: Vec<ContainerInfo>,
    pub isolated_pods: Vec<IsolatedPodInfo>,
    pub cpu_history: Vec<u64>,
    pub memory_history: Vec<u64>,
    pub feos_logs: Vec<LogEntry>,
    pub kernel_logs: Vec<LogEntry>,
    pub selected_vm_index: usize,
    pub selected_container_index: usize,
    pub container_logs_expanded: bool,
    pub selected_isolated_pod_index: usize,
    pub selected_pod_container_index: usize,
    pub selected_pod_log_tab: usize,
    pub logs_expanded: bool,
    pub selected_global_log_tab: usize,
    pub global_logs_expanded: bool,
    pub log_scroll_offset: usize,
    pub log_line_wrap: bool,
    pub help_modal_open: bool,
    pub help_scroll_offset: usize,
    pub selected_system_action: usize,
    pub system_modal_open: bool,
    pub system_confirmation: Option<SystemAction>,
    pub update_count: u64,
    pub log_count: u64,
}

/// Whether an index validly selects into a list: inside the list, or
/// zero when the list is empty.
pub open spec fn sel_ok(idx: int, len: int) -> bool {
    if len == 0 {
        idx == 0
    } else {
        0 <= idx < len
    }
}

impl App {
    /// Selection sanity: every selection index points into its list (or
    /// rests at zero for an empty list), tab selectors stay in range.
    pub open spec fn wf(self) -> bool {
        &&& sel_ok(self.selected_vm_index as int, self.vms@.len() as int)
        &&& sel_ok(self.selected_container_index as int, self.containers@.len() as int)
        &&& sel_ok(self.selected_isolated_pod_index as int, self.isolated_pods@.len() as int)
        &&& self.isolated_pods@.len() > 0 ==> sel_ok(
            self.selected_pod_container_index as int,
            self.isolated_pods@[self.selected_isolated_pod_index as int].containers@.len() as int,
        )
        &&& self.isolated_pods@.len() == 0 ==> self.selected_pod_container_index == 0
        &&& self.selected_pod_log_tab < 2
        &&& self.selected_global_log_tab < 2
        &&& self.selected_system_action < 3
    }

    /// A fresh interface over the demo data at time `now`.
    pub fn new(now: u64) -> (r: App)
        ensures
            r.wf(),
            !r.should_quit,
            r.current_view == CurrentView::Dashboard,
            r.selected_vm_index == 0 && r.selected_container_index == 0
                && r.selected_isolated_pod_index == 0 && r.selected_pod_container_index == 0,
            !r.help_modal_open && !r.system_modal_open && r.system_confirmation is None,
            r.update_count == 0 && r.log_count == 0,
    {
        App {
            should_quit: false,
            current_view: CurrentView::Dashboard,
            host_info: get_mock_host_info(0),
            vms: get_mock_vms(0),
            containers: get_mock_containers(0, now),
            isolated_pods: get_mock_isolated_pods(0, now),
            cpu_history: get_mock_cpu_history(0),
            memory_history: get_mock_memory_history(0),
            feos_logs: get_mock_feos_logs(),
            kernel_logs: get_mock_kernel_logs(),
            selected_vm_index: 0,
            selected_container_index: 0,
            container_logs_expanded: false,
            selected_isolated_pod_index: 0,
            selected_pod_container_index: 0,
            selected_pod_log_tab: 0,
            logs_expanded: false,
            selected_global_log_tab: 0,
            global_logs_expanded: false,
            log_scroll_offset: 0,
            log_line_wrap: true,
            help_modal_open: false,
            help_scroll_offset: 0,
            selected_system_action: 0,
            system_modal_open: false,
            system_confirmation: None,
            update_count: 0,
            log_count: 0,
        }
    }

    /// One interface tick: when the data refresh is due, re-polls the
    /// demo endpoints and clamps the selections; when the log refresh is
    /// due, appends streamed entries and keeps only the newest fifty.
    pub fn tick(&mut self, data_due: bool, logs_due: bool, now: u64)
        requires
            old(self).wf(),
            now <= u64::MAX - 4,
        ensures
            final(self).wf(),
            final(self).should_quit == old(self).should_quit,
            final(self).current_view == old(self).current_view,
            !data_due && !logs_due ==> *final(self) == *old(self),
            data_due && old(self).update_count < u64::MAX ==> final(self).update_count == old(
                self,
            ).update_count + 1,
    {
        if data_due {
            tick_updates(&mut self.update_count);
            let u = self.update_count;
            self.host_info = get_mock_host_info(u);
            self.vms = get_mock_vms(u);
            self.containers = get_mock_containers(u, now);
            self.isolated_pods = get_mock_isolated_pods(u, now);
            self.cpu_history = get_mock_cpu_history(u);
            self.memory_history = get_mock_memory_history(u);
            if self.selected_vm_index >= self.vms.len() {
                self.selected_vm_index = 0;
            }
            if self.selected_container_index >= self.containers.len() {
                self.selected_container_index = 0;
            }
            if self.selected_isolated_pod_index >= self.isolated_pods.len() {
                self.selected_isolated_pod_index = 0;
            }
            if self.isolated_pods.len() > 0 {
                let pc = self.isolated_pods[self.selected_isolated_pod_index].containers.len();
                if self.selected_pod_container_index >= pc {
                    self.selected_pod_container_index = 0;
                }
            } else {
                self.selected_pod_container_index = 0;
            }
        }
        let ghost count_after_data = self.update_count;
        if logs_due {
            tick_updates(&mut self.log_count);
            let mut fresh = get_new_feos_log_entries(self.log_count, now);
            let mut k: usize = 0;
            let fl = fresh.len();
            while k < fl
                invariant
                    k <= fl == fresh.len(),
                    self.wf(),
                    self.should_quit == old(self).should_quit,
                    self.current_view == old(self).current_view,
                    self.update_count == count_after_data,
                decreases fl - k,
            {
                let e = LogEntry {
                    timestamp: fresh[k].timestamp,
                    level: fresh[k].level.clone(),
                    message: fresh[k].message.clone(),
                };
                self.feos_logs.push(e);
                k = k + 1;
            }
            let mut fresh_k = get_new_kernel_log_entries(self.log_count, now);
            let mut k2: usize = 0;
            let fk = fresh_k.len();
            while k2 < fk
                invariant
                    k2 <= fk == fresh_k.len(),
                    self.wf(),
                    self.should_quit == old(self).should_quit,
                    self.current_view == old(self).current_view,
                    self.update_count == count_after_data,
                decreases fk - k2,
            {
                let e = LogEntry {
                    timestamp: fresh_k[k2].timestamp,
                    level: fresh_k[k2].level.clone(),
                    message: fresh_k[k2].message.clone(),
                };
                self.kernel_logs.push(e);
                k2 = k2 + 1;
            }
            while self.feos_logs.len() > 50
                invariant
                    self.wf(),
                    self.should_quit == old(self).should_quit,
                    self.current_view == old(self).current_view,
                    self.update_count == count_after_data,
                decreases self.feos_logs.len(),
            {
                self.feos_logs.remove(0);
            }
            while self.kernel_logs.len() > 50
                invariant
                    self.wf(),
                    self.should_quit == old(self).should_quit,
                    self.current_view == old(self).current_view,
                    self.update_count == count_after_data,
                decreases self.kernel_logs.len(),
            {
                self.kernel_logs.remove(0);
            }
        }
    }

    /// Moves the VM selection forward, wrapping.
    pub fn select_next_vm(&mut self)
        requires
            old(self).wf(),
        ensures
            final(self).wf(),
            *final(self) == (App { selected_vm_index: final(self).selected_vm_index, ..*old(self) }),
            old(self).vms@.len() > 0 ==> final(self).selected_vm_index == (old(self).selected_vm_index + 1) % (old(self).vms@.len() as int),
            old(self).vms@.len() == 0 ==> final(self).selected_vm_index == old(self).selected_vm_index,
            final(self).vms@ == old(self).vms@,
            final(self).current_view == old(self).current_view,
    {
        if self.vms.len() > 0 {
            self.selected_vm_index = (self.selected_vm_index + 1) % self.vms.len();
        }
    }

    /// Moves the VM selection backward, wrapping.
    pub fn select_previous_vm(&mut self)
        requires
            old(self).wf(),
        ensures
            final(self).wf(),
            *final(self) == (App { selected_vm_index: final(self).selected_vm_index, ..*old(self) }),
            old(self).vms@.len() > 0 && old(self).selected_vm_index == 0 ==> final(self).selected_vm_index == old(self).vms@.len() - 1,
            old(self).vms@.len() > 0 && old(self).selected_vm_index > 0 ==> final(self).selected_vm_index == old(self).selected_vm_index - 1,
            final(self).vms@ == old(self).vms@,
    {
        if self.vms.len() > 0 {
            if self.selected_vm_index == 0 {
                self.selected_vm_index = self.vms.len() - 1;
            } else {
                self.selected_vm_index = self.selected_vm_index - 1;
            }
        }
    }

    /// The selected VM, if any exist.
    pub fn get_selected_vm(&self) -> (r: Option<&VmInfo>)
        requires
            self.wf(),
        ensures
            self.vms@.len() == 0 ==> r is None,
            self.vms@.len() > 0 ==> (r matches Some(v) && *v == self.vms@[self.selected_vm_index as int]),
    {
        if self.vms.len() == 0 {
            None
        } else {
            Some(&self.vms[self.selected_vm_index])
        }
    }

    /// Moves the container selection forward, wrapping.
    pub fn select_next_container(&mut self)
        requires
            old(self).wf(),
        ensures
            final(self).wf(),
            *final(self) == (App { selected_container_index: final(self).selected_container_index, ..*old(self) }),
            old(self).containers@.len() > 0 ==> final(self).selected_container_index == (old(self).selected_container_index + 1) % (old(self).containers@.len() as int),
            final(self).containers@ == old(self).containers@,
    {
        if self.containers.len() > 0 {
            self.selected_container_index = (self.selected_container_index + 1)
                % self.containers.len();
        }
    }

    /// Moves the container selection backward, wrapping.
    pub fn select_previous_container(&mut self)
        requires
            old(self).wf(),
        ensures
            final(self).wf(),
            *final(self) == (App { selected_container_index: final(self).selected_container_index, ..*old(self) }),
            old(self).containers@.len() > 0 && old(self).selected_container_index == 0 ==> final(self).selected_container_index == old(self).containers@.len() - 1,
            old(self).containers@.len() > 0 && old(self).selected_container_index > 0 ==> final(self).selected_container_index == old(self).selected_container_index - 1,
            final(self).containers@ == old(self).containers@,
    {
        if self.containers.len() > 0 {
            if self.selected_container_index == 0 {
                self.selected_container_index = self.containers.len() - 1;
            } else {
                self.selected_container_index = self.selected_container_index - 1;
            }
        }
    }

    /// The selected container, if any exist.
    pub fn get_selected_container(&self) -> (r: Option<&ContainerInfo>)
        requires
            self.wf(),
        ensures
            self.containers@.len() == 0 ==> r is None,
            self.containers@.len() > 0 ==> (r matches Some(c) && *c == self.containers@[self.selected_container_index as int]),
    {
        if self.containers.len() == 0 {
            None
        } else {
            Some(&self.containers[self.selected_container_index])
        }
    }

    /// Moves the pod selection forward, wrapping, and resets the inner
    /// container selection.
    pub fn select_next_isolated_pod(&mut self)
        requires
            old(self).wf(),
        ensures
            final(self).wf(),
            *final(self) == (App { selected_isolated_pod_index: final(self).selected_isolated_pod_index, selected_pod_container_index: final(self).selected_pod_container_index, ..*old(self) }),
            old(self).isolated_pods@.len() > 0 ==> final(self).selected_isolated_pod_index == (old(self).selected_isolated_pod_index + 1) % (old(self).isolated_pods@.len() as int),
            final(self).selected_pod_container_index == 0 || final(self).isolated_pods@.len() == 0
                && final(self).selected_pod_container_index == old(self).selected_pod_container_index,
            final(self).isolated_pods@ == old(self).isolated_pods@,
    {
        if self.isolated_pods.len() > 0 {
            self.selected_isolated_pod_index = (self.selected_isolated_pod_index + 1)
                % self.isolated_pods.len();
            self.selected_pod_container_index = 0;
        }
    }

    /// Moves the pod selection backward, wrapping, and resets the inner
    /// container selection.
    pub fn select_previous_isolated_pod(&mut self)
        requires
            old(self).wf(),
        ensures
            final(self).wf(),
            *final(self) == (App { selected_isolated_pod_index: final(self).selected_isolated_pod_index, selected_pod_container_index: final(self).selected_pod_container_index, ..*old(self) }),
            final(self).isolated_pods@ == old(self).isolated_pods@,
    {
        if self.isolated_pods.len() > 0 {
            if self.selected_isolated_pod_index == 0 {
                self.selected_isolated_pod_index = self.isolated_pods.len() - 1;
            } else {
                self.selected_isolated_pod_index = self.selected_isolated_pod_index - 1;
            }
            self.selected_pod_container_index = 0;
        }
    }

    /// The selected pod, if any exist.
    pub fn get_selected_isolated_pod(&self) -> (r: Option<&IsolatedPodInfo>)
        requires
            self.wf(),
        ensures
            self.isolated_pods@.len() == 0 ==> r is None,
            self.isolated_pods@.len() > 0 ==> (r matches Some(p) && *p == self.isolated_pods@[self.selected_isolated_pod_index as int]),
    {
        if self.isolated_pods.len() == 0 {
            None
        } else {
            Some(&self.isolated_pods[self.selected_isolated_pod_index])
        }
    }

    /// Moves the inner-container selection forward, wrapping.
    pub fn select_next_pod_container(&mut self)
        requires
            old(self).wf(),
        ensures
            final(self).wf(),
            *final(self) == (App { selected_pod_container_index: final(self).selected_pod_container_index, ..*old(self) }),
            final(self).isolated_pods@ == old(self).isolated_pods@,
    {
        if self.isolated_pods.len() > 0 {
            let pc = self.isolated_pods[self.selected_isolated_pod_index].containers.len();
            if pc > 0 {
                self.selected_pod_container_index = (self.selected_pod_container_index + 1) % pc;
            }
        }
    }

    /// Moves the inner-container selection backward, wrapping.
    pub fn select_previous_pod_container(&mut self)
        requires
            old(self).wf(),
        ensures
            final(self).wf(),
            *final(self) == (App { selected_pod_container_index: final(self).selected_pod_container_index, ..*old(self) }),
            final(self).isolated_pods@ == old(self).isolated_pods@,
    {
        if self.isolated_pods.len() > 0 {
            let pc = self.isolated_pods[self.selected_isolated_pod_index].containers.len();
            if pc > 0 {
                if self.selected_pod_container_index == 0 {
                    self.selected_pod_container_index = pc - 1;
                } else {
                    self.selected_pod_container_index = self.selected_pod_container_index - 1;
                }
            }
        }
    }

    /// The selected inner container, if any.
    pub fn get_selected_pod_container(&self) -> (r: Option<&IsolatedPodContainer>)
        requires
            self.wf(),
        ensures
            self.isolated_pods@.len() == 0 ==> r is None,
    {
        if self.isolated_pods.len() == 0 {
            return None;
        }
        let pod = &self.isolated_pods[self.selected_isolated_pod_index];
        if pod.containers.len() == 0 {
            None
        } else {
            Some(&pod.containers[self.selected_pod_container_index])
        }
    }

    /// Toggles between the pod's kernel-log and container-log tabs.
    pub fn switch_pod_log_tab(&mut self)
        requires
            old(self).wf(),
        ensures
            final(self).wf(),
            *final(self) == (App { selected_pod_log_tab: final(self).selected_pod_log_tab, ..*old(self) }),
            final(self).selected_pod_log_tab == (old(self).selected_pod_log_tab + 1) % 2,
    {
        self.selected_pod_log_tab = (self.selected_pod_log_tab + 1) % 2;
    }

    /// Toggles the pod logs between inline and full-screen, resetting the
    /// scroll position.
    pub fn toggle_logs_expanded(&mut self)
        requires
            old(self).wf(),
        ensures
            final(self).wf(),
            *final(self) == (App { logs_expanded: final(self).logs_expanded, log_scroll_offset: final(self).log_scroll_offset, ..*old(self) }),
            final(self).logs_expanded == !old(self).logs_expanded,
            final(self).log_scroll_offset == 0,
    {
        self.logs_expanded = !self.logs_expanded;
        self.log_scroll_offset = 0;
    }

    /// Toggles between the agent-log and kernel-log tabs.
    pub fn switch_global_log_tab(&mut self)
        requires
            old(self).wf(),
        ensures
            final(self).wf(),
            *final(self) == (App { selected_global_log_tab: final(self).selected_global_log_tab, ..*old(self) }),
            final(self).selected_global_log_tab == (old(self).selected_global_log_tab + 1) % 2,
    {
        self.selected_global_log_tab = (self.selected_global_log_tab + 1) % 2;
    }

    /// Toggles the global logs between inline and full-screen, resetting
    /// the scroll position.
    pub fn toggle_global_logs_expanded(&mut self)
        requires
            old(self).wf(),
        ensures
            final(self).wf(),
            *final(self) == (App { global_logs_expanded: final(self).global_logs_expanded, log_scroll_offset: final(self).log_scroll_offset, ..*old(self) }),
            final(self).global_logs_expanded == !old(self).global_logs_expanded,
            final(self).log_scroll_offset == 0,
    {
        self.global_logs_expanded = !self.global_logs_expanded;
        self.log_scroll_offset = 0;
    }

    /// Toggles the container logs between inline and full-screen,
    /// resetting the scroll position.
    pub fn toggle_container_logs_expanded(&mut self)
        requires
            old(self).wf(),
        ensures
            final(self).wf(),
            *final(self) == (App { container_logs_expanded: final(self).container_logs_expanded, log_scroll_offset: final(self).log_scroll_offset, ..*old(self) }),
            final(self).container_logs_expanded == !old(self).container_logs_expanded,
            final(self).log_scroll_offset == 0,
    {
        self.container_logs_expanded = !self.container_logs_expanded;
        self.log_scroll_offset = 0;
    }

    /// Scrolls the logs up one line, stopping at the top.
    pub fn scroll_logs_up(&mut self)
        requires
            old(self).wf(),
        ensures
            final(self).wf(),
            *final(self) == (App { log_scroll_offset: final(self).log_scroll_offset, ..*old(self) }),
            old(self).log_scroll_offset > 0 ==> final(self).log_scroll_offset == old(self).log_scroll_offset - 1,
            old(self).log_scroll_offset == 0 ==> final(self).log_scroll_offset == 0,
    {
        if self.log_scroll_offset > 0 {
            self.log_scroll_offset = self.log_scroll_offset - 1;
        }
    }

    /// Scrolls the logs down one line.
    pub fn scroll_logs_down(&mut self)
        requires
            old(self).wf(),
        ensures
            final(self).wf(),
            *final(self) == (App { log_scroll_offset: final(self).log_scroll_offset, ..*old(self) }),
            old(self).log_scroll_offset < usize::MAX ==> final(self).log_scroll_offset == old(self).log_scroll_offset + 1,
    {
        if self.log_scroll_offset < usize::MAX {
            self.log_scroll_offset = self.log_scroll_offset + 1;
        }
    }

    /// Scrolls the logs up one page of ten lines.
    pub fn scroll_logs_page_up(&mut self)
        requires
            old(self).wf(),
        ensures
            final(self).wf(),
            *final(self) == (App { log_scroll_offset: final(self).log_scroll_offset, ..*old(self) }),
            old(self).log_scroll_offset >= 10 ==> final(self).log_scroll_offset == old(self).log_scroll_offset - 10,
            old(self).log_scroll_offset < 10 ==> final(self).log_scroll_offset == 0,
    {
        if self.log_scroll_offset >= 10 {
            self.log_scroll_offset = self.log_scroll_offset - 10;
        } else {
            self.log_scroll_offset = 0;
        }
    }

    /// Scrolls the logs down one page of ten lines.
    pub fn scroll_logs_page_down(&mut self)
        requires
            old(self).wf(),
        ensures
            final(self).wf(),
            *final(self) == (App { log_scroll_offset: final(self).log_scroll_offset, ..*old(self) }),
            old(self).log_scroll_offset <= usize::MAX - 10 ==> final(self).log_scroll_offset
                == old(self).log_scroll_offset + 10,
    {
        if self.log_scroll_offset <= usize::MAX - 10 {
            self.log_scroll_offset = self.log_scroll_offset + 10;
        }
    }

    /// Toggles long-line wrapping in the log views.
    pub fn toggle_log_line_wrap(&mut self)
        requires
            old(self).wf(),
        ensures
            final(self).wf(),
            *final(self) == (App { log_line_wrap: final(self).log_line_wrap, ..*old(self) }),
            final(self).log_line_wrap == !old(self).log_line_wrap,
    {
        self.log_line_wrap = !self.log_line_wrap;
    }

    /// Opens the help modal at the top.
    pub fn open_help_modal(&mut self)
        requires
            old(self).wf(),
        ensures
            final(self).wf(),
            *final(self) == (App { help_modal_open: final(self).help_modal_open, help_scroll_offset: final(self).help_scroll_offset, ..*old(self) }),
            final(self).help_modal_open,
            final(self).help_scroll_offset == 0,
    {
        self.help_modal_open = true;
        self.help_scroll_offset = 0;
    }

    /// Closes the help modal.
    pub fn close_help_modal(&mut self)
        requires
            old(self).wf(),
        ensures
            final(self).wf(),
            *final(self) == (App { help_modal_open: final(self).help_modal_open, help_scroll_offset: final(self).help_scroll_offset, ..*old(self) }),
            !final(self).help_modal_open,
            final(self).help_scroll_offset == 0,
    {
        self.help_modal_open = false;
        self.help_scroll_offset = 0;
    }

    /// Scrolls the help up one line, stopping at the top.
    pub fn scroll_help_up(&mut self)
        requires
            old(self).wf(),
        ensures
            final(self).wf(),
            *final(self) == (App { help_scroll_offset: final(self).help_scroll_offset, ..*old(self) }),
            old(self).help_scroll_offset > 0 ==> final(self).help_scroll_offset == old(self).help_scroll_offset - 1,
    {
        if self.help_scroll_offset > 0 {
            self.help_scroll_offset = self.help_scroll_offset - 1;
        }
    }

    /// Scrolls the help down one line.
    pub fn scroll_help_down(&mut self)
        requires
            old(self).wf(),
        ensures
            final(self).wf(),
            *final(self) == (App { help_scroll_offset: final(self).help_scroll_offset, ..*old(self) }),
            old(self).help_scroll_offset < usize::MAX ==> final(self).help_scroll_offset == old(self).help_scroll_offset + 1,
    {
        if self.help_scroll_offset < usize::MAX {
            self.help_scroll_offset = self.help_scroll_offset + 1;
        }
    }

    /// Moves the system-action selection forward over the three actions.
    pub fn select_next_system_action(&mut self)
        requires
            old(self).wf(),
        ensures
            final(self).wf(),
            *final(self) == (App { selected_system_action: final(self).selected_system_action, ..*old(self) }),
            final(self).selected_system_action == (old(self).selected_system_action + 1) % 3,
    {
        self.selected_system_action = (self.selected_system_action + 1) % 3;
    }

    /// Moves the system-action selection backward over the three actions.
    pub fn select_previous_system_action(&mut self)
        requires
            old(self).wf(),
        ensures
            final(self).wf(),
            *final(self) == (App { selected_system_action: final(self).selected_system_action, ..*old(self) }),
            old(self).selected_system_action == 0 ==> final(self).selected_system_action == 2,
            old(self).selected_system_action > 0 ==> final(self).selected_system_action == old(self).selected_system_action - 1,
    {
        if self.selected_system_action == 0 {
            self.selected_system_action = 2;
        } else {
            self.selected_system_action = self.selected_system_action - 1;
        }
    }

    /// The three system actions, in menu order.
    pub fn get_system_actions() -> (r: Vec<SystemAction>)
        ensures
            r@.len() == 3,
            r@[0] == SystemAction::Reboot,
            r@[1] == SystemAction::Shutdown,
            r@[2] == SystemAction::Cancel,
    {
        let mut v: Vec<SystemAction> = Vec::new();
        v.push(SystemAction::Reboot);
        v.push(SystemAction::Shutdown);
        v.push(SystemAction::Cancel);
        v
    }

    /// Opens the system modal on its first entry.
    pub fn open_system_modal(&mut self)
        requires
            old(self).wf(),
        ensures
            final(self).wf(),
            *final(self) == (App { system_modal_open: final(self).system_modal_open, selected_system_action: final(self).selected_system_action, ..*old(self) }),
            final(self).system_modal_open,
            final(self).selected_system_action == 0,
    {
        self.system_modal_open = true;
        self.selected_system_action = 0;
    }

    /// Closes the system modal and drops any pending confirmation.
    pub fn close_system_modal(&mut self)
        requires
            old(self).wf(),
        ensures
            final(self).wf(),
            *final(self) == (App { system_modal_open: final(self).system_modal_open, system_confirmation: final(self).system_confirmation, ..*old(self) }),
            !final(self).system_modal_open,
            final(self).system_confirmation is None,
    {
        self.system_modal_open = false;
        self.system_confirmation = None;
    }

    /// Confirms the highlighted entry: `Cancel` closes the modal at once;
    /// the destructive actions first ask for confirmation.
    pub fn trigger_system_confirmation(&mut self)
        requires
            old(self).wf(),
        ensures
            final(self).wf(),
            *final(self) == (App { system_modal_open: final(self).system_modal_open, system_confirmation: final(self).system_confirmation, ..*old(self) }),
            old(self).selected_system_action == 2 ==> !final(self).system_modal_open && final(self).system_confirmation is None,
            old(self).selected_system_action == 0 ==> final(self).system_confirmation == Some(
                SystemAction::Reboot,
            ),
            old(self).selected_system_action == 1 ==> final(self).system_confirmation == Some(
                SystemAction::Shutdown,
            ),
    {
        if self.selected_system_action == 2 {
            self.close_system_modal();
        } else if self.selected_system_action == 0 {
            self.system_confirmation = Some(SystemAction::Reboot);
        } else {
            self.system_confirmation = Some(SystemAction::Shutdown);
        }
    }

    /// Acknowledges a pending confirmation and closes the modal; the
    /// actual reboot or shutdown is the caller's to perform.
    pub fn confirm_system_action(&mut self)
        requires
            old(self).wf(),
        ensures
            final(self).wf(),
            *final(self) == (App { system_modal_open: final(self).system_modal_open, system_confirmation: final(self).system_confirmation, ..*old(self) }),
            !final(self).system_modal_open,
            final(self).system_confirmation is None,
    {
        self.close_system_modal();
    }

    /// Dismisses a pending confirmation and closes the modal.
    pub fn cancel_system_action(&mut self)
        requires
            old(self).wf(),
        ensures
            final(self).wf(),
            *final(self) == (App { system_modal_open: final(self).system_modal_open, system_confirmation: final(self).system_confirmation, ..*old(self) }),
            !final(self).system_modal_open,
            final(self).system_confirmation is None,
    {
        self.close_system_modal();
    }
}

/// How a log panel is rendered: its title, scroll position, wrapping,
/// and whether the kernel colour scheme applies.
#[derive(Debug)]
pub struct LogConfig<'a> {
    pub title: &'a str,
    pub scroll_offset: usize,
    pub line_wrap: bool,
    pub kernel_mode: bool,
}

} // verus!
