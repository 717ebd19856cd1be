//! Event loops: the configuration of a custom loop and the native arguments
//! derived from it, and the rule that the system loop is created once.

use vstd::prelude::*;

use crate::error::{EspError, ESP_ERR_INVALID_STATE, ESP_OK};

verus! {

/// The task that runs a custom event loop.
#[derive(Debug, Clone, Copy)]
pub struct TaskConfiguration<'a> {
    pub name: &'a str,
    pub priority: u8,
    pub stack_size: usize,
    pub pin_to_core: Option<u8>,
}

impl<'a> TaskConfiguration<'a> {
    /// The default task: named `"(unknown)"`, priority 0, a 3 KiB stack,
    /// not pinned to a core.
    pub fn new() -> (t: Self)
        ensures
            t.name@ == "(unknown)"@,
            t.priority == 0,
            t.stack_size == 3072,
            t.pin_to_core is None,
    {
        TaskConfiguration { name: "(unknown)", priority: 0, stack_size: 3072, pin_to_core: None }
    }
}

/// The configuration of a custom event loop.
#[derive(Debug, Clone, Copy)]
pub struct Configuration<'a> {
    pub queue_size: usize,
    pub task_configuration: Option<TaskConfiguration<'a>>,
}

impl<'a> Configuration<'a> {
    /// The default configuration: a queue of 1000 events, no dedicated task.
    pub fn new() -> (c: Self)
        ensures
            c.queue_size == 1000,
            c.task_configuration is None,
    {
        Configuration { queue_size: 1000, task_configuration: None }
    }
}

/// The native event loop arguments (`esp_event_loop_args_t`).
#[derive(Debug, Clone, Copy)]
pub struct EventLoopArgs<'a> {
    pub queue_size: i32,
    pub task_name: Option<&'a str>,
    pub task_priority: u32,
    pub task_stack_size: u32,
    pub task_core_id: i32,
}

/// The native arguments for a configuration: the queue size and, when a task
/// is configured, its name, priority, stack size and core (core 0 when not
/// pinned); without a task, no task fields are set.
pub fn event_loop_args<'a>(conf: &Configuration<'a>) -> (a: EventLoopArgs<'a>)
    ensures
        a.queue_size == conf.queue_size as i32,
        match conf.task_configuration {
            Some(t) => a.task_name == Some(t.name) && a.task_priority == t.priority as u32
                && a.task_stack_size == t.stack_size as u32
                && a.task_core_id == match t.pin_to_core {
                    Some(c) => c as i32,
                    None => 0i32,
                },
            None => a.task_name is None && a.task_priority == 0 && a.task_stack_size == 0 && a.task_core_id == 0,
        },
{
    match conf.task_configuration {
        Some(t) => {
            let core: i32 = match t.pin_to_core {
                Some(c) => c as i32,
                None => 0,
            };
            EventLoopArgs {
                queue_size: conf.queue_size as i32,
                task_name: Some(t.name),
                task_priority: t.priority as u32,
                task_stack_size: t.stack_size as u32,
                task_core_id: core,
            }
        },
        None => EventLoopArgs { queue_size: conf.queue_size as i32, task_name: None, task_priority: 0, task_stack_size: 0, task_core_id: 0 },
    }
}

/// Whether the system event loop has been created; it exists at most once.
pub struct SystemLoop {
    taken: bool,
}

impl SystemLoop {
    /// Whether the system loop exists.
    pub closed spec fn is_taken(self) -> bool {
        self.taken
    }

    /// No system loop yet.
    pub fn new() -> (s: Self)
        ensures
            !s.is_taken(),
    {
        SystemLoop { taken: false }
    }

    /// Creates the system loop through `create` (the native
    /// `esp_event_loop_create_default`): refused with
    /// `ESP_ERR_INVALID_STATE`, without calling `create`, when it exists;
    /// a failed creation is returned and changes nothing.
    pub fn take<F: Fn() -> i32>(&mut self, create: &F) -> (r: Result<(), EspError>)
        requires
            call_requires(*create, ()),
        ensures
            old(self).is_taken() ==> (r matches Err(e) && e.spec_code() == ESP_ERR_INVALID_STATE) && final(self).is_taken(),
            !old(self).is_taken() ==> exists|code: i32| #[trigger] call_ensures(*create, (), code)
                && (code == ESP_OK ==> r is Ok && final(self).is_taken())
                && (code != ESP_OK ==> (r matches Err(e) && e.spec_code() == code) && !final(self).is_taken()),
    {
        if self.taken {
            return Err(EspError::from_non_zero(ESP_ERR_INVALID_STATE));
        }
        let code = create();
        if code != ESP_OK {
            return Err(EspError::from_non_zero(code));
        }
        self.taken = true;
        Ok(())
    }

    /// Records that the system loop was deleted; it can be created again.
    pub fn release(&mut self)
        ensures
            !final(self).is_taken(),
    {
        self.taken = false;
    }
}

} // verus!
