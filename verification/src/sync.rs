//! Synchronization: who may access a resource, and in which order the device
//! carries out the work it was given.

use crate::buffer::cpu_access::{ReadLockError, WriteLockError};
use smallvec::SmallVec;
use vstd::prelude::*;

pub mod future;
pub mod tracker;

verus! {

/// The stages of the device's pipeline at which work happens.
#[derive(Clone, Copy, Debug, PartialEq, Eq, Hash, Structural)]
pub struct PipelineStages {
    pub top_of_pipe: bool,
    pub draw_indirect: bool,
    pub vertex_input: bool,
    pub vertex_shader: bool,
    pub tessellation_control_shader: bool,
    pub tessellation_evaluation_shader: bool,
    pub geometry_shader: bool,
    pub fragment_shader: bool,
    pub early_fragment_tests: bool,
    pub late_fragment_tests: bool,
    pub color_attachment_output: bool,
    pub compute_shader: bool,
    pub transfer: bool,
    pub bottom_of_pipe: bool,
    pub host: bool,
    pub all_graphics: bool,
    pub all_commands: bool,
}

impl PipelineStages {
    /// The ways of access that work at these stages can make. Work at all
    /// stages can make all of them; all the stages of drawing count as each
    /// of them; access to memory as such is open to every stage.
    pub open spec fn supported_access_spec(self) -> AccessFlags {
        if self.all_commands {
            AccessFlags {
                indirect_command_read: true,
                index_read: true,
                vertex_attribute_read: true,
                uniform_read: true,
                input_attachment_read: true,
                shader_read: true,
                shader_write: true,
                color_attachment_read: true,
                color_attachment_write: true,
                depth_stencil_attachment_read: true,
                depth_stencil_attachment_write: true,
                transfer_read: true,
                transfer_write: true,
                host_read: true,
                host_write: true,
                memory_read: true,
                memory_write: true,
            }
        } else {
            let graphics = self.all_graphics;
            let shader = graphics || self.vertex_shader || self.tessellation_control_shader
                || self.tessellation_evaluation_shader || self.geometry_shader
                || self.fragment_shader || self.compute_shader;
            AccessFlags {
                indirect_command_read: graphics || self.draw_indirect,
                index_read: graphics || self.vertex_input,
                vertex_attribute_read: graphics || self.vertex_input,
                uniform_read: shader,
                input_attachment_read: graphics || self.fragment_shader,
                shader_read: shader,
                shader_write: shader,
                color_attachment_read: graphics || self.color_attachment_output,
                color_attachment_write: graphics || self.color_attachment_output,
                depth_stencil_attachment_read: graphics || self.early_fragment_tests
                    || self.late_fragment_tests,
                depth_stencil_attachment_write: graphics || self.early_fragment_tests
                    || self.late_fragment_tests,
                transfer_read: self.transfer,
                transfer_write: self.transfer,
                host_read: self.host,
                host_write: self.host,
                memory_read: true,
                memory_write: true,
            }
        }
    }

    /// Returns the access types that are supported with the given pipeline stages.
    pub fn supported_access(&self) -> (access: AccessFlags)
        ensures
            access == self.supported_access_spec(),
    {
        if self.all_commands {
            return AccessFlags {
                indirect_command_read: true,
                index_read: true,
                vertex_attribute_read: true,
                uniform_read: true,
                input_attachment_read: true,
                shader_read: true,
                shader_write: true,
                color_attachment_read: true,
                color_attachment_write: true,
                depth_stencil_attachment_read: true,
                depth_stencil_attachment_write: true,
                transfer_read: true,
                transfer_write: true,
                host_read: true,
                host_write: true,
                memory_read: true,
                memory_write: true,
            };
        }
        let graphics = self.all_graphics;
        let shader = graphics || self.vertex_shader || self.tessellation_control_shader
            || self.tessellation_evaluation_shader || self.geometry_shader || self.fragment_shader
            || self.compute_shader;
        AccessFlags {
            indirect_command_read: graphics || self.draw_indirect,
            index_read: graphics || self.vertex_input,
            vertex_attribute_read: graphics || self.vertex_input,
            uniform_read: shader,
            input_attachment_read: graphics || self.fragment_shader,
            shader_read: shader,
            shader_write: shader,
            color_attachment_read: graphics || self.color_attachment_output,
            color_attachment_write: graphics || self.color_attachment_output,
            depth_stencil_attachment_read: graphics || self.early_fragment_tests
                || self.late_fragment_tests,
            depth_stencil_attachment_write: graphics || self.early_fragment_tests
                || self.late_fragment_tests,
            transfer_read: self.transfer,
            transfer_write: self.transfer,
            host_read: self.host,
            host_write: self.host,
            memory_read: true,
            memory_write: true,
        }
    }

    /// The set without any flag.
    pub open spec fn empty_spec() -> PipelineStages {
        PipelineStages {
            top_of_pipe: false,
            draw_indirect: false,
            vertex_input: false,
            vertex_shader: false,
            tessellation_control_shader: false,
            tessellation_evaluation_shader: false,
            geometry_shader: false,
            fragment_shader: false,
            early_fragment_tests: false,
            late_fragment_tests: false,
            color_attachment_output: false,
            compute_shader: false,
            transfer: false,
            bottom_of_pipe: false,
            host: false,
            all_graphics: false,
            all_commands: false,
        }
    }

    /// The set without any flag.
    pub fn empty() -> (flags: PipelineStages)
        ensures
            flags == PipelineStages::empty_spec(),
    {
        PipelineStages {
            top_of_pipe: false,
            draw_indirect: false,
            vertex_input: false,
            vertex_shader: false,
            tessellation_control_shader: false,
            tessellation_evaluation_shader: false,
            geometry_shader: false,
            fragment_shader: false,
            early_fragment_tests: false,
            late_fragment_tests: false,
            color_attachment_output: false,
            compute_shader: false,
            transfer: false,
            bottom_of_pipe: false,
            host: false,
            all_graphics: false,
            all_commands: false,
        }
    }

    /// Whether no flag is set.
    pub open spec fn is_empty_spec(self) -> bool {
        self == PipelineStages::empty_spec()
    }

    /// Whether no flag is set.
    pub fn is_empty(&self) -> (r: bool)
        ensures
            r == self.is_empty_spec(),
    {
        !(self.top_of_pipe || self.draw_indirect || self.vertex_input || self.vertex_shader || self.tessellation_control_shader || self.tessellation_evaluation_shader || self.geometry_shader || self.fragment_shader || self.early_fragment_tests || self.late_fragment_tests || self.color_attachment_output || self.compute_shader || self.transfer || self.bottom_of_pipe || self.host || self.all_graphics || self.all_commands)
    }

    /// The flags that are set in `self` or in `other`.
    pub open spec fn union_spec(self, other: PipelineStages) -> PipelineStages {
        PipelineStages {
            top_of_pipe: self.top_of_pipe || other.top_of_pipe,
            draw_indirect: self.draw_indirect || other.draw_indirect,
            vertex_input: self.vertex_input || other.vertex_input,
            vertex_shader: self.vertex_shader || other.vertex_shader,
            tessellation_control_shader: self.tessellation_control_shader || other.tessellation_control_shader,
            tessellation_evaluation_shader: self.tessellation_evaluation_shader || other.tessellation_evaluation_shader,
            geometry_shader: self.geometry_shader || other.geometry_shader,
            fragment_shader: self.fragment_shader || other.fragment_shader,
            early_fragment_tests: self.early_fragment_tests || other.early_fragment_tests,
            late_fragment_tests: self.late_fragment_tests || other.late_fragment_tests,
            color_attachment_output: self.color_attachment_output || other.color_attachment_output,
            compute_shader: self.compute_shader || other.compute_shader,
            transfer: self.transfer || other.transfer,
            bottom_of_pipe: self.bottom_of_pipe || other.bottom_of_pipe,
            host: self.host || other.host,
            all_graphics: self.all_graphics || other.all_graphics,
            all_commands: self.all_commands || other.all_commands,
        }
    }

    /// The flags that are set in `self` or in `other`.
    pub fn union(&self, other: &PipelineStages) -> (flags: PipelineStages)
        ensures
            flags == self.union_spec(*other),
    {
        PipelineStages {
            top_of_pipe: self.top_of_pipe || other.top_of_pipe,
            draw_indirect: self.draw_indirect || other.draw_indirect,
            vertex_input: self.vertex_input || other.vertex_input,
            vertex_shader: self.vertex_shader || other.vertex_shader,
            tessellation_control_shader: self.tessellation_control_shader || other.tessellation_control_shader,
            tessellation_evaluation_shader: self.tessellation_evaluation_shader || other.tessellation_evaluation_shader,
            geometry_shader: self.geometry_shader || other.geometry_shader,
            fragment_shader: self.fragment_shader || other.fragment_shader,
            early_fragment_tests: self.early_fragment_tests || other.early_fragment_tests,
            late_fragment_tests: self.late_fragment_tests || other.late_fragment_tests,
            color_attachment_output: self.color_attachment_output || other.color_attachment_output,
            compute_shader: self.compute_shader || other.compute_shader,
            transfer: self.transfer || other.transfer,
            bottom_of_pipe: self.bottom_of_pipe || other.bottom_of_pipe,
            host: self.host || other.host,
            all_graphics: self.all_graphics || other.all_graphics,
            all_commands: self.all_commands || other.all_commands,
        }
    }

    /// The flags that are set in `self` and in `other`.
    pub open spec fn intersection_spec(self, other: PipelineStages) -> PipelineStages {
        PipelineStages {
            top_of_pipe: self.top_of_pipe && other.top_of_pipe,
            draw_indirect: self.draw_indirect && other.draw_indirect,
            vertex_input: self.vertex_input && other.vertex_input,
            vertex_shader: self.vertex_shader && other.vertex_shader,
            tessellation_control_shader: self.tessellation_control_shader && other.tessellation_control_shader,
            tessellation_evaluation_shader: self.tessellation_evaluation_shader && other.tessellation_evaluation_shader,
            geometry_shader: self.geometry_shader && other.geometry_shader,
            fragment_shader: self.fragment_shader && other.fragment_shader,
            early_fragment_tests: self.early_fragment_tests && other.early_fragment_tests,
            late_fragment_tests: self.late_fragment_tests && other.late_fragment_tests,
            color_attachment_output: self.color_attachment_output && other.color_attachment_output,
            compute_shader: self.compute_shader && other.compute_shader,
            transfer: self.transfer && other.transfer,
            bottom_of_pipe: self.bottom_of_pipe && other.bottom_of_pipe,
            host: self.host && other.host,
            all_graphics: self.all_graphics && other.all_graphics,
            all_commands: self.all_commands && other.all_commands,
        }
    }

    /// The flags that are set in `self` and in `other`.
    pub fn intersection(&self, other: &PipelineStages) -> (flags: PipelineStages)
        ensures
            flags == self.intersection_spec(*other),
    {
        PipelineStages {
            top_of_pipe: self.top_of_pipe && other.top_of_pipe,
            draw_indirect: self.draw_indirect && other.draw_indirect,
            vertex_input: self.vertex_input && other.vertex_input,
            vertex_shader: self.vertex_shader && other.vertex_shader,
            tessellation_control_shader: self.tessellation_control_shader && other.tessellation_control_shader,
            tessellation_evaluation_shader: self.tessellation_evaluation_shader && other.tessellation_evaluation_shader,
            geometry_shader: self.geometry_shader && other.geometry_shader,
            fragment_shader: self.fragment_shader && other.fragment_shader,
            early_fragment_tests: self.early_fragment_tests && other.early_fragment_tests,
            late_fragment_tests: self.late_fragment_tests && other.late_fragment_tests,
            color_attachment_output: self.color_attachment_output && other.color_attachment_output,
            compute_shader: self.compute_shader && other.compute_shader,
            transfer: self.transfer && other.transfer,
            bottom_of_pipe: self.bottom_of_pipe && other.bottom_of_pipe,
            host: self.host && other.host,
            all_graphics: self.all_graphics && other.all_graphics,
            all_commands: self.all_commands && other.all_commands,
        }
    }

    /// Whether every flag of `other` is set in `self`.
    pub open spec fn contains_spec(self, other: PipelineStages) -> bool {
        (other.top_of_pipe ==> self.top_of_pipe)
            && (other.draw_indirect ==> self.draw_indirect)
            && (other.vertex_input ==> self.vertex_input)
            && (other.vertex_shader ==> self.vertex_shader)
            && (other.tessellation_control_shader ==> self.tessellation_control_shader)
            && (other.tessellation_evaluation_shader ==> self.tessellation_evaluation_shader)
            && (other.geometry_shader ==> self.geometry_shader)
            && (other.fragment_shader ==> self.fragment_shader)
            && (other.early_fragment_tests ==> self.early_fragment_tests)
            && (other.late_fragment_tests ==> self.late_fragment_tests)
            && (other.color_attachment_output ==> self.color_attachment_output)
            && (other.compute_shader ==> self.compute_shader)
            && (other.transfer ==> self.transfer)
            && (other.bottom_of_pipe ==> self.bottom_of_pipe)
            && (other.host ==> self.host)
            && (other.all_graphics ==> self.all_graphics)
            && (other.all_commands ==> self.all_commands)
    }

    /// Whether every flag of `other` is set in `self`.
    pub fn contains(&self, other: &PipelineStages) -> (r: bool)
        ensures
            r == self.contains_spec(*other),
    {
        (!other.top_of_pipe || self.top_of_pipe)
            && (!other.draw_indirect || self.draw_indirect)
            && (!other.vertex_input || self.vertex_input)
            && (!other.vertex_shader || self.vertex_shader)
            && (!other.tessellation_control_shader || self.tessellation_control_shader)
            && (!other.tessellation_evaluation_shader || self.tessellation_evaluation_shader)
            && (!other.geometry_shader || self.geometry_shader)
            && (!other.fragment_shader || self.fragment_shader)
            && (!other.early_fragment_tests || self.early_fragment_tests)
            && (!other.late_fragment_tests || self.late_fragment_tests)
            && (!other.color_attachment_output || self.color_attachment_output)
            && (!other.compute_shader || self.compute_shader)
            && (!other.transfer || self.transfer)
            && (!other.bottom_of_pipe || self.bottom_of_pipe)
            && (!other.host || self.host)
            && (!other.all_graphics || self.all_graphics)
            && (!other.all_commands || self.all_commands)
    }
}
/// The ways in which memory is accessed.
#[derive(Clone, Copy, Debug, PartialEq, Eq, Hash, Structural)]
pub struct AccessFlags {
    pub indirect_command_read: bool,
    pub index_read: bool,
    pub vertex_attribute_read: bool,
    pub uniform_read: bool,
    pub input_attachment_read: bool,
    pub shader_read: bool,
    pub shader_write: bool,
    pub color_attachment_read: bool,
    pub color_attachment_write: bool,
    pub depth_stencil_attachment_read: bool,
    pub depth_stencil_attachment_write: bool,
    pub transfer_read: bool,
    pub transfer_write: bool,
    pub host_read: bool,
    pub host_write: bool,
    pub memory_read: bool,
    pub memory_write: bool,
}

impl AccessFlags {
    /// The set without any flag.
    pub open spec fn empty_spec() -> AccessFlags {
        AccessFlags {
            indirect_command_read: false,
            index_read: false,
            vertex_attribute_read: false,
            uniform_read: false,
            input_attachment_read: false,
            shader_read: false,
            shader_write: false,
            color_attachment_read: false,
            color_attachment_write: false,
            depth_stencil_attachment_read: false,
            depth_stencil_attachment_write: false,
            transfer_read: false,
            transfer_write: false,
            host_read: false,
            host_write: false,
            memory_read: false,
            memory_write: false,
        }
    }

    /// The set without any flag.
    pub fn empty() -> (flags: AccessFlags)
        ensures
            flags == AccessFlags::empty_spec(),
    {
        AccessFlags {
            indirect_command_read: false,
            index_read: false,
            vertex_attribute_read: false,
            uniform_read: false,
            input_attachment_read: false,
            shader_read: false,
            shader_write: false,
            color_attachment_read: false,
            color_attachment_write: false,
            depth_stencil_attachment_read: false,
            depth_stencil_attachment_write: false,
            transfer_read: false,
            transfer_write: false,
            host_read: false,
            host_write: false,
            memory_read: false,
            memory_write: false,
        }
    }

    /// Whether no flag is set.
    pub open spec fn is_empty_spec(self) -> bool {
        self == AccessFlags::empty_spec()
    }

    /// Whether no flag is set.
    pub fn is_empty(&self) -> (r: bool)
        ensures
            r == self.is_empty_spec(),
    {
        !(self.indirect_command_read || self.index_read || self.vertex_attribute_read || self.uniform_read || self.input_attachment_read || self.shader_read || self.shader_write || self.color_attachment_read || self.color_attachment_write || self.depth_stencil_attachment_read || self.depth_stencil_attachment_write || self.transfer_read || self.transfer_write || self.host_read || self.host_write || self.memory_read || self.memory_write)
    }

    /// The flags that are set in `self` or in `other`.
    pub open spec fn union_spec(self, other: AccessFlags) -> AccessFlags {
        AccessFlags {
            indirect_command_read: self.indirect_command_read || other.indirect_command_read,
            index_read: self.index_read || other.index_read,
            vertex_attribute_read: self.vertex_attribute_read || other.vertex_attribute_read,
            uniform_read: self.uniform_read || other.uniform_read,
            input_attachment_read: self.input_attachment_read || other.input_attachment_read,
            shader_read: self.shader_read || other.shader_read,
            shader_write: self.shader_write || other.shader_write,
            color_attachment_read: self.color_attachment_read || other.color_attachment_read,
            color_attachment_write: self.color_attachment_write || other.color_attachment_write,
            depth_stencil_attachment_read: self.depth_stencil_attachment_read || other.depth_stencil_attachment_read,
            depth_stencil_attachment_write: self.depth_stencil_attachment_write || other.depth_stencil_attachment_write,
            transfer_read: self.transfer_read || other.transfer_read,
            transfer_write: self.transfer_write || other.transfer_write,
            host_read: self.host_read || other.host_read,
            host_write: self.host_write || other.host_write,
            memory_read: self.memory_read || other.memory_read,
            memory_write: self.memory_write || other.memory_write,
        }
    }

    /// The flags that are set in `self` or in `other`.
    pub fn union(&self, other: &AccessFlags) -> (flags: AccessFlags)
        ensures
            flags == self.union_spec(*other),
    {
        AccessFlags {
            indirect_command_read: self.indirect_command_read || other.indirect_command_read,
            index_read: self.index_read || other.index_read,
            vertex_attribute_read: self.vertex_attribute_read || other.vertex_attribute_read,
            uniform_read: self.uniform_read || other.uniform_read,
            input_attachment_read: self.input_attachment_read || other.input_attachment_read,
            shader_read: self.shader_read || other.shader_read,
            shader_write: self.shader_write || other.shader_write,
            color_attachment_read: self.color_attachment_read || other.color_attachment_read,
            color_attachment_write: self.color_attachment_write || other.color_attachment_write,
            depth_stencil_attachment_read: self.depth_stencil_attachment_read || other.depth_stencil_attachment_read,
            depth_stencil_attachment_write: self.depth_stencil_attachment_write || other.depth_stencil_attachment_write,
            transfer_read: self.transfer_read || other.transfer_read,
            transfer_write: self.transfer_write || other.transfer_write,
            host_read: self.host_read || other.host_read,
            host_write: self.host_write || other.host_write,
            memory_read: self.memory_read || other.memory_read,
            memory_write: self.memory_write || other.memory_write,
        }
    }

    /// The flags that are set in `self` and in `other`.
    pub open spec fn intersection_spec(self, other: AccessFlags) -> AccessFlags {
        AccessFlags {
            indirect_command_read: self.indirect_command_read && other.indirect_command_read,
            index_read: self.index_read && other.index_read,
            vertex_attribute_read: self.vertex_attribute_read && other.vertex_attribute_read,
            uniform_read: self.uniform_read && other.uniform_read,
            input_attachment_read: self.input_attachment_read && other.input_attachment_read,
            shader_read: self.shader_read && other.shader_read,
            shader_write: self.shader_write && other.shader_write,
            color_attachment_read: self.color_attachment_read && other.color_attachment_read,
            color_attachment_write: self.color_attachment_write && other.color_attachment_write,
            depth_stencil_attachment_read: self.depth_stencil_attachment_read && other.depth_stencil_attachment_read,
            depth_stencil_attachment_write: self.depth_stencil_attachment_write && other.depth_stencil_attachment_write,
            transfer_read: self.transfer_read && other.transfer_read,
            transfer_write: self.transfer_write && other.transfer_write,
            host_read: self.host_read && other.host_read,
            host_write: self.host_write && other.host_write,
            memory_read: self.memory_read && other.memory_read,
            memory_write: self.memory_write && other.memory_write,
        }
    }

    /// The flags that are set in `self` and in `other`.
    pub fn intersection(&self, other: &AccessFlags) -> (flags: AccessFlags)
        ensures
            flags == self.intersection_spec(*other),
    {
        AccessFlags {
            indirect_command_read: self.indirect_command_read && other.indirect_command_read,
            index_read: self.index_read && other.index_read,
            vertex_attribute_read: self.vertex_attribute_read && other.vertex_attribute_read,
            uniform_read: self.uniform_read && other.uniform_read,
            input_attachment_read: self.input_attachment_read && other.input_attachment_read,
            shader_read: self.shader_read && other.shader_read,
            shader_write: self.shader_write && other.shader_write,
            color_attachment_read: self.color_attachment_read && other.color_attachment_read,
            color_attachment_write: self.color_attachment_write && other.color_attachment_write,
            depth_stencil_attachment_read: self.depth_stencil_attachment_read && other.depth_stencil_attachment_read,
            depth_stencil_attachment_write: self.depth_stencil_attachment_write && other.depth_stencil_attachment_write,
            transfer_read: self.transfer_read && other.transfer_read,
            transfer_write: self.transfer_write && other.transfer_write,
            host_read: self.host_read && other.host_read,
            host_write: self.host_write && other.host_write,
            memory_read: self.memory_read && other.memory_read,
            memory_write: self.memory_write && other.memory_write,
        }
    }

    /// Whether every flag of `other` is set in `self`.
    pub open spec fn contains_spec(self, other: AccessFlags) -> bool {
        (other.indirect_command_read ==> self.indirect_command_read)
            && (other.index_read ==> self.index_read)
            && (other.vertex_attribute_read ==> self.vertex_attribute_read)
            && (other.uniform_read ==> self.uniform_read)
            && (other.input_attachment_read ==> self.input_attachment_read)
            && (other.shader_read ==> self.shader_read)
            && (other.shader_write ==> self.shader_write)
            && (other.color_attachment_read ==> self.color_attachment_read)
            && (other.color_attachment_write ==> self.color_attachment_write)
            && (other.depth_stencil_attachment_read ==> self.depth_stencil_attachment_read)
            && (other.depth_stencil_attachment_write ==> self.depth_stencil_attachment_write)
            && (other.transfer_read ==> self.transfer_read)
            && (other.transfer_write ==> self.transfer_write)
            && (other.host_read ==> self.host_read)
            && (other.host_write ==> self.host_write)
            && (other.memory_read ==> self.memory_read)
            && (other.memory_write ==> self.memory_write)
    }

    /// Whether every flag of `other` is set in `self`.
    pub fn contains(&self, other: &AccessFlags) -> (r: bool)
        ensures
            r == self.contains_spec(*other),
    {
        (!other.indirect_command_read || self.indirect_command_read)
            && (!other.index_read || self.index_read)
            && (!other.vertex_attribute_read || self.vertex_attribute_read)
            && (!other.uniform_read || self.uniform_read)
            && (!other.input_attachment_read || self.input_attachment_read)
            && (!other.shader_read || self.shader_read)
            && (!other.shader_write || self.shader_write)
            && (!other.color_attachment_read || self.color_attachment_read)
            && (!other.color_attachment_write || self.color_attachment_write)
            && (!other.depth_stencil_attachment_read || self.depth_stencil_attachment_read)
            && (!other.depth_stencil_attachment_write || self.depth_stencil_attachment_write)
            && (!other.transfer_read || self.transfer_read)
            && (!other.transfer_write || self.transfer_write)
            && (!other.host_read || self.host_read)
            && (!other.host_write || self.host_write)
            && (!other.memory_read || self.memory_read)
            && (!other.memory_write || self.memory_write)
    }
}
/// A semaphore: the device signals it when some of its work has ended, and
/// other work of the device waits for it.
#[derive(Clone, Copy, Debug, PartialEq, Eq, Structural)]
pub struct Semaphore {
    /// The driver's handle of the semaphore.
    pub handle: u64,
}

/// A fence: the device signals it when some of its work has ended, and the
/// host can ask whether it was signaled.
#[derive(Clone, Copy, Debug, PartialEq, Eq, Structural)]
pub struct Fence {
    /// The driver's handle of the fence.
    pub handle: u64,
}

/// A short list of the indices of queue families.
#[verifier::external_body]
#[derive(Debug)]
pub struct QueueFamilyIndices {
    inner: SmallVec<[u32; 4]>,
}

/// The indices that a list of queue families holds, in order.
pub uninterp spec fn queue_family_indices(list: QueueFamilyIndices) -> Seq<u32>;

impl View for QueueFamilyIndices {
    type V = Seq<u32>;

    open spec fn view(&self) -> Seq<u32> {
        queue_family_indices(*self)
    }
}

/// Whether the numbers stand in ascending order.
pub open spec fn ascending(s: Seq<u32>) -> bool {
    forall|i: int, j: int| 0 <= i < j < s.len() ==> s[i] <= s[j]
}

/// Whether the numbers stand in ascending order and none stands twice.
pub open spec fn strictly_ascending(s: Seq<u32>) -> bool {
    forall|i: int, j: int| 0 <= i < j < s.len() ==> s[i] < s[j]
}

/// The numbers without those that repeat the number before them.
pub open spec fn without_repeats(s: Seq<u32>) -> Seq<u32>
    decreases s.len(),
{
    if s.len() <= 1 {
        s
    } else if s[s.len() - 2] == s.last() {
        without_repeats(s.drop_last())
    } else {
        without_repeats(s.drop_last()).push(s.last())
    }
}

/// Whether the list holds two numbers that differ.
pub open spec fn two_distinct(s: Seq<u32>) -> bool {
    exists|i: int, j: int| 0 <= i < s.len() && 0 <= j < s.len() && s[i] != s[j]
}

impl QueueFamilyIndices {
    /// `SmallVec::new`: a list that holds nothing.
    #[verifier::external_body]
    pub(crate) fn empty() -> (list: QueueFamilyIndices)
        ensures
            queue_family_indices(list) == Seq::<u32>::empty(),
    {
        QueueFamilyIndices { inner: SmallVec::new() }
    }

    /// `SmallVec::push`: the index is added at the end.
    #[verifier::external_body]
    pub(crate) fn push_index(&mut self, index: u32)
        ensures
            queue_family_indices(*final(self)) == queue_family_indices(*old(self)).push(index),
    {
        self.inner.push(index)
    }

    /// `SmallVec::len`: the number of indices in the list.
    #[verifier::external_body]
    pub(crate) fn count(&self) -> (n: usize)
        ensures
            n == queue_family_indices(*self).len(),
    {
        self.inner.len()
    }

    /// Indexing a `SmallVec`: the index at place `i`.
    #[verifier::external_body]
    pub(crate) fn at(&self, i: usize) -> (index: u32)
        requires
            i < queue_family_indices(*self).len(),
        ensures
            index == queue_family_indices(*self)[i as int],
    {
        self.inner[i]
    }

    /// `slice::sort_unstable` on the list: the same indices, each as often as
    /// before, in ascending order.
    #[verifier::external_body]
    pub(crate) fn sort(&mut self)
        ensures
            ascending(queue_family_indices(*final(self))),
            queue_family_indices(*final(self)).to_multiset() == queue_family_indices(
                *old(self),
            ).to_multiset(),
    {
        self.inner.sort_unstable()
    }

    /// `SmallVec::dedup`: each index that repeats the one before it is taken
    /// out.
    #[verifier::external_body]
    pub(crate) fn dedup(&mut self)
        ensures
            queue_family_indices(*final(self)) == without_repeats(
                queue_family_indices(*old(self)),
            ),
    {
        self.inner.dedup()
    }

    /// A list that holds nothing.
    pub fn new() -> (list: QueueFamilyIndices)
        ensures
            list@ == Seq::<u32>::empty(),
    {
        QueueFamilyIndices::empty()
    }

    /// The list of the given indices, in their order.
    pub fn from_vec(indices: &Vec<u32>) -> (list: QueueFamilyIndices)
        ensures
            list@ == indices@,
    {
        let mut list = QueueFamilyIndices::empty();
        let mut i: usize = 0;
        while i < indices.len()
            invariant
                i <= indices.len(),
                list@ == indices@.take(i as int),
            decreases indices.len() - i,
        {
            list.push_index(indices[i]);
            assert(list@ =~= indices@.take(i + 1));
            i += 1;
        }
        assert(indices@.take(indices.len() as int) =~= indices@);
        list
    }

    /// The indices of the list, in order.
    pub fn to_vec(&self) -> (indices: Vec<u32>)
        ensures
            indices@ == self@,
    {
        let n = self.count();
        let mut indices: Vec<u32> = Vec::new();
        let mut i: usize = 0;
        while i < n
            invariant
                n == self@.len(),
                i <= n,
                indices@ == self@.take(i as int),
            decreases n - i,
        {
            indices.push(self.at(i));
            assert(indices@ =~= self@.take(i + 1));
            i += 1;
        }
        assert(self@.take(n as int) =~= self@);
        indices
    }

    /// The number of indices in the list.
    pub fn len(&self) -> (n: usize)
        ensures
            n == self@.len(),
    {
        self.count()
    }

    /// The index at place `i`, if there is one.
    pub fn get(&self, i: usize) -> (index: Option<u32>)
        ensures
            index == if i < self@.len() {
                Some(self@[i as int])
            } else {
                None
            },
    {
        if i < self.count() {
            Some(self.at(i))
        } else {
            None
        }
    }

    /// Puts the indices in ascending order and keeps each of them once.
    pub fn sort_and_dedup(&mut self)
        ensures
            strictly_ascending(final(self)@),
            forall|k: int|
                0 <= k < final(self)@.len() ==> old(self)@.contains(#[trigger] final(self)@[k]),
            forall|m: int|
                0 <= m < old(self)@.len() ==> final(self)@.contains(#[trigger] old(self)@[m]),
            two_distinct(old(self)@) ==> final(self)@.len() >= 2,
    {
        self.sort();
        let ghost sorted = self@;
        self.dedup();
        proof {
            sorted.to_multiset_ensures();
            old(self)@.to_multiset_ensures();
            lemma_without_repeats(sorted);
            assert forall|k: int| 0 <= k < self@.len() implies old(self)@.contains(
                #[trigger] self@[k],
            ) by {
                assert(sorted.contains(self@[k]));
                assert(sorted.to_multiset().count(self@[k]) > 0);
            }
            assert forall|m: int| 0 <= m < old(self)@.len() implies self@.contains(
                #[trigger] old(self)@[m],
            ) by {
                assert(old(self)@.contains(old(self)@[m]));
                assert(old(self)@.to_multiset().count(old(self)@[m]) > 0);
                assert(sorted.contains(old(self)@[m]));
                let i = choose|i: int| 0 <= i < sorted.len() && sorted[i] == old(self)@[m];
                assert(self@.contains(sorted[i]));
            }
            if two_distinct(old(self)@) {
                let (i, j) = choose|i: int, j: int|
                    0 <= i < old(self)@.len() && 0 <= j < old(self)@.len() && old(self)@[i] != old(
                        self,
                    )@[j];
                assert(self@.contains(old(self)@[i]));
                assert(self@.contains(old(self)@[j]));
                let ka = choose|k: int| 0 <= k < self@.len() && self@[k] == old(self)@[i];
                let kb = choose|k: int| 0 <= k < self@.len() && self@[k] == old(self)@[j];
                assert(ka != kb);
            }
        }
    }
}

/// Taking the repeats out of an ascending list leaves each of its numbers
/// once, in strictly ascending order.
pub proof fn lemma_without_repeats(s: Seq<u32>)
    requires
        ascending(s),
    ensures
        strictly_ascending(without_repeats(s)),
        forall|k: int|
            0 <= k < without_repeats(s).len() ==> s.contains(#[trigger] without_repeats(s)[k]),
        forall|m: int| 0 <= m < s.len() ==> without_repeats(s).contains(#[trigger] s[m]),
        s.len() > 0 ==> without_repeats(s).len() > 0 && without_repeats(s).last() == s.last(),
    decreases s.len(),
{
    let w = without_repeats(s);
    if s.len() == 1 {
        assert(w[0] == s[0]);
    } else if s.len() > 1 {
        let init = s.drop_last();
        assert(ascending(init)) by {
            assert forall|i: int, j: int| 0 <= i < j < init.len() implies init[i] <= init[j] by {
                assert(s[i] <= s[j]);
            }
        }
        lemma_without_repeats(init);
        let wi = without_repeats(init);
        let same = s[s.len() - 2] == s.last();
        assert(init.last() == s[s.len() - 2]);
        assert forall|k: int| 0 <= k < w.len() implies s.contains(#[trigger] w[k]) by {
            if k < wi.len() {
                assert(w[k] == wi[k]);
                assert(init.contains(wi[k]));
                let m = choose|m: int| 0 <= m < init.len() && init[m] == wi[k];
                assert(s[m] == w[k]);
            } else {
                assert(s[s.len() - 1] == w[k]);
            }
        }
        assert forall|m: int| 0 <= m < s.len() implies w.contains(#[trigger] s[m]) by {
            if m < init.len() {
                assert(s[m] == init[m]);
                assert(wi.contains(init[m]));
                let k = choose|k: int| 0 <= k < wi.len() && wi[k] == init[m];
                assert(w[k] == s[m]);
            } else if same {
                assert(w[w.len() - 1] == s[m]);
            } else {
                assert(w[w.len() - 1] == s[m]);
            }
        }
        if !same {
            assert(s[s.len() - 2] <= s[s.len() - 1]);
            assert forall|i: int, j: int| 0 <= i < j < w.len() implies w[i] < w[j] by {
                if j < wi.len() {
                    assert(wi[i] < wi[j]);
                } else {
                    assert(init.contains(wi[i]));
                    let m = choose|m: int| 0 <= m < init.len() && init[m] == wi[i];
                    assert(s[m] <= s[s.len() - 2]);
                }
            }
        }
    }
}

/// Whether a resource is used by one queue family at a time or by several.
#[derive(Debug)]
pub enum Sharing<I> {
    /// The resource is used by one queue family at a time.
    Exclusive,
    /// The resource is used by the given queue families at once.
    Concurrent(I),
}

/// The accesses that are under way on one range of a resource.
#[derive(Clone, Copy, Debug, PartialEq, Eq, Structural)]
pub enum CurrentAccess {
    /// The host writes the range. Nothing else may access it.
    CpuExclusive,
    /// The device writes the range. The host may not access it.
    GpuExclusive {
        /// The number of device reads under way.
        gpu_reads: u32,
        /// The number of device writes under way.
        gpu_writes: u32,
    },
    /// Any number of readers and no writer.
    Shared {
        /// The number of host reads under way.
        cpu_reads: u32,
        /// The number of device reads under way.
        gpu_reads: u32,
    },
}

/// The four ways of access that a range is locked for.
#[derive(Clone, Copy, Debug, PartialEq, Eq, Structural)]
pub enum LockKind {
    CpuRead,
    CpuWrite,
    GpuRead,
    GpuWrite,
}

impl CurrentAccess {
    /// A range that nothing accesses.
    pub open spec fn idle() -> CurrentAccess {
        CurrentAccess::Shared { cpu_reads: 0, gpu_reads: 0 }
    }

    /// A range that the device writes has at least one device write under
    /// way.
    pub open spec fn valid(self) -> bool {
        self matches CurrentAccess::GpuExclusive { gpu_writes, .. } ==> gpu_writes >= 1
    }

    /// Why the host may not read the range, if it may not.
    pub open spec fn cpu_read_conflict(self) -> Option<ReadLockError> {
        match self {
            CurrentAccess::CpuExclusive => Some(ReadLockError::CpuWriteLocked),
            CurrentAccess::GpuExclusive { .. } => Some(ReadLockError::GpuWriteLocked),
            CurrentAccess::Shared { .. } => None,
        }
    }

    /// Why the host may not write the range, if it may not. A host access
    /// under way is reported before a device access.
    pub open spec fn cpu_write_conflict(self) -> Option<WriteLockError> {
        match self {
            CurrentAccess::CpuExclusive => Some(WriteLockError::CpuLocked),
            CurrentAccess::GpuExclusive { .. } => Some(WriteLockError::GpuLocked),
            CurrentAccess::Shared { cpu_reads, gpu_reads } => if cpu_reads > 0 {
                Some(WriteLockError::CpuLocked)
            } else if gpu_reads > 0 {
                Some(WriteLockError::GpuLocked)
            } else {
                None
            },
        }
    }

    /// Whether the state of the range alone forbids a device read: the
    /// device may read what is shared and what the device itself writes, not
    /// what the host writes.
    pub open spec fn gpu_read_conflict(self) -> bool {
        self is CpuExclusive
    }

    /// Whether the state of the range alone forbids a device write.
    pub open spec fn gpu_write_conflict(self) -> bool {
        self != CurrentAccess::idle()
    }

    /// The number of device reads under way.
    pub open spec fn gpu_reads(self) -> int {
        match self {
            CurrentAccess::CpuExclusive => 0,
            CurrentAccess::GpuExclusive { gpu_reads, .. } => gpu_reads as int,
            CurrentAccess::Shared { gpu_reads, .. } => gpu_reads as int,
        }
    }

    /// Whether a lock of the given kind may be taken on a range in this state.
    pub open spec fn lockable(self, kind: LockKind) -> bool {
        match kind {
            LockKind::CpuRead => self matches CurrentAccess::Shared { cpu_reads, .. }
                && cpu_reads < u32::MAX,
            LockKind::CpuWrite => self == CurrentAccess::idle(),
            LockKind::GpuRead => match self {
                CurrentAccess::CpuExclusive => false,
                CurrentAccess::GpuExclusive { gpu_reads, .. } => gpu_reads < u32::MAX,
                CurrentAccess::Shared { gpu_reads, .. } => gpu_reads < u32::MAX,
            },
            LockKind::GpuWrite => match self {
                CurrentAccess::CpuExclusive => false,
                CurrentAccess::GpuExclusive { gpu_writes, .. } => gpu_writes < u32::MAX,
                CurrentAccess::Shared { cpu_reads, .. } => cpu_reads == 0,
            },
        }
    }

    /// The state of a range after a lock of the given kind was taken on it.
    pub open spec fn locked(self, kind: LockKind) -> CurrentAccess {
        match kind {
            LockKind::CpuRead => match self {
                CurrentAccess::Shared { cpu_reads, gpu_reads } => CurrentAccess::Shared {
                    cpu_reads: (cpu_reads + 1) as u32,
                    gpu_reads,
                },
                _ => self,
            },
            LockKind::CpuWrite => CurrentAccess::CpuExclusive,
            LockKind::GpuRead => match self {
                CurrentAccess::CpuExclusive => self,
                CurrentAccess::GpuExclusive { gpu_reads, gpu_writes } => {
                    CurrentAccess::GpuExclusive { gpu_reads: (gpu_reads + 1) as u32, gpu_writes }
                },
                CurrentAccess::Shared { cpu_reads, gpu_reads } => CurrentAccess::Shared {
                    cpu_reads,
                    gpu_reads: (gpu_reads + 1) as u32,
                },
            },
            LockKind::GpuWrite => match self {
                CurrentAccess::CpuExclusive => self,
                CurrentAccess::GpuExclusive { gpu_reads, gpu_writes } => {
                    CurrentAccess::GpuExclusive { gpu_reads, gpu_writes: (gpu_writes + 1) as u32 }
                },
                CurrentAccess::Shared { gpu_reads, .. } => CurrentAccess::GpuExclusive {
                    gpu_reads,
                    gpu_writes: 1,
                },
            },
        }
    }

    /// Whether a range in this state holds a lock of the given kind that can
    /// be given back.
    pub open spec fn unlockable(self, kind: LockKind) -> bool {
        match kind {
            LockKind::CpuRead => self matches CurrentAccess::Shared { cpu_reads, .. }
                && cpu_reads > 0,
            LockKind::CpuWrite => self is CpuExclusive,
            LockKind::GpuRead => match self {
                CurrentAccess::CpuExclusive => false,
                CurrentAccess::GpuExclusive { gpu_reads, .. } => gpu_reads > 0,
                CurrentAccess::Shared { gpu_reads, .. } => gpu_reads > 0,
            },
            LockKind::GpuWrite => self matches CurrentAccess::GpuExclusive { gpu_writes, .. }
                && gpu_writes > 0,
        }
    }

    /// The state of a range after a lock of the given kind was given back.
    /// The last device write to end leaves the range shared, with the device
    /// reads that are still under way.
    pub open spec fn unlocked(self, kind: LockKind) -> CurrentAccess {
        match kind {
            LockKind::CpuRead => match self {
                CurrentAccess::Shared { cpu_reads, gpu_reads } => CurrentAccess::Shared {
                    cpu_reads: (cpu_reads - 1) as u32,
                    gpu_reads,
                },
                _ => self,
            },
            LockKind::CpuWrite => CurrentAccess::idle(),
            LockKind::GpuRead => match self {
                CurrentAccess::CpuExclusive => self,
                CurrentAccess::GpuExclusive { gpu_reads, gpu_writes } => {
                    CurrentAccess::GpuExclusive { gpu_reads: (gpu_reads - 1) as u32, gpu_writes }
                },
                CurrentAccess::Shared { cpu_reads, gpu_reads } => CurrentAccess::Shared {
                    cpu_reads,
                    gpu_reads: (gpu_reads - 1) as u32,
                },
            },
            LockKind::GpuWrite => match self {
                CurrentAccess::GpuExclusive { gpu_reads, gpu_writes } => if gpu_writes == 1 {
                    CurrentAccess::Shared { cpu_reads: 0, gpu_reads }
                } else {
                    CurrentAccess::GpuExclusive { gpu_reads, gpu_writes: (gpu_writes - 1) as u32 }
                },
                _ => self,
            },
        }
    }
}

/// Whether a lock of the given kind may be taken on each offset of
/// `start..end` that the resource has.
pub open spec fn lockable_range(
    s: Seq<CurrentAccess>,
    kind: LockKind,
    start: int,
    end: int,
) -> bool {
    forall|p: int| start <= p < end && 0 <= p < s.len() ==> (#[trigger] s[p]).lockable(kind)
}

/// Whether each offset of `start..end` that the resource has holds a lock of
/// the given kind.
pub open spec fn unlockable_range(
    s: Seq<CurrentAccess>,
    kind: LockKind,
    start: int,
    end: int,
) -> bool {
    forall|p: int| start <= p < end && 0 <= p < s.len() ==> (#[trigger] s[p]).unlockable(kind)
}

/// The states after a lock of the given kind was taken on `start..end`:
/// offsets outside the range keep their state.
pub open spec fn locked_range(
    s: Seq<CurrentAccess>,
    kind: LockKind,
    start: int,
    end: int,
) -> Seq<CurrentAccess> {
    Seq::new(
        s.len(),
        |p: int|
            if start <= p < end {
                s[p].locked(kind)
            } else {
                s[p]
            },
    )
}

/// The states after a lock of the given kind on `start..end` was given back:
/// offsets outside the range keep their state.
pub open spec fn unlocked_range(
    s: Seq<CurrentAccess>,
    kind: LockKind,
    start: int,
    end: int,
) -> Seq<CurrentAccess> {
    Seq::new(
        s.len(),
        |p: int|
            if start <= p < end {
                s[p].unlocked(kind)
            } else {
                s[p]
            },
    )
}

/// The states after `n` locks of the given kind were taken on `start..end`.
pub open spec fn locked_range_times(
    s: Seq<CurrentAccess>,
    kind: LockKind,
    start: int,
    end: int,
    n: nat,
) -> Seq<CurrentAccess>
    decreases n,
{
    if n == 0 {
        s
    } else {
        locked_range(locked_range_times(s, kind, start, end, (n - 1) as nat), kind, start, end)
    }
}

/// The states after `n` locks of the given kind on `start..end` were given
/// back.
pub open spec fn unlocked_range_times(
    s: Seq<CurrentAccess>,
    kind: LockKind,
    start: int,
    end: int,
    n: nat,
) -> Seq<CurrentAccess>
    decreases n,
{
    if n == 0 {
        s
    } else {
        unlocked_range_times(unlocked_range(s, kind, start, end), kind, start, end, (n - 1) as nat)
    }
}

/// Whether each state is one that the locks and unlocks lead to.
pub open spec fn valid_states(s: Seq<CurrentAccess>) -> bool {
    forall|p: int| 0 <= p < s.len() ==> (#[trigger] s[p]).valid()
}

/// Whether `p` is the lowest offset of `start..end` whose state conflicts.
pub open spec fn is_first_conflict<S>(
    s: Seq<S>,
    start: int,
    end: int,
    conflict: spec_fn(S) -> bool,
    p: int,
) -> bool {
    &&& start <= p < end
    &&& 0 <= p < s.len()
    &&& conflict(s[p])
    &&& forall|q: int| start <= q < p && 0 <= q ==> !conflict(#[trigger] s[q])
}

/// The lowest offset of `start..end` whose state conflicts, if there is one.
pub open spec fn first_conflict<S>(
    s: Seq<S>,
    start: int,
    end: int,
    conflict: spec_fn(S) -> bool,
) -> Option<int> {
    if exists|p: int| is_first_conflict(s, start, end, conflict, p) {
        Some(choose|p: int| is_first_conflict(s, start, end, conflict, p))
    } else {
        None
    }
}

/// The first conflict is the one offset that conflicts with none before it.
pub proof fn lemma_first_conflict_is<S>(
    s: Seq<S>,
    start: int,
    end: int,
    conflict: spec_fn(S) -> bool,
    p: int,
)
    requires
        is_first_conflict(s, start, end, conflict, p),
    ensures
        first_conflict(s, start, end, conflict) == Some(p),
{
    let q = choose|q: int| is_first_conflict(s, start, end, conflict, q);
    if q < p {
        assert(!conflict(s[q]));
    } else if p < q {
        assert(!conflict(s[p]));
    }
}

/// Without a conflicting offset there is no first one.
pub proof fn lemma_first_conflict_none<S>(
    s: Seq<S>,
    start: int,
    end: int,
    conflict: spec_fn(S) -> bool,
)
    requires
        forall|p: int| start <= p < end && 0 <= p < s.len() ==> !conflict(#[trigger] s[p]),
    ensures
        first_conflict(s, start, end, conflict) is None,
{
}

/// Among the conflicting offsets of a range one is the first.
pub proof fn lemma_first_conflict_exists<S>(
    s: Seq<S>,
    start: int,
    end: int,
    conflict: spec_fn(S) -> bool,
    p: int,
) -> (first: int)
    requires
        start <= p < end,
        0 <= p < s.len(),
        conflict(s[p]),
    ensures
        is_first_conflict(s, start, end, conflict, first),
        first <= p,
        first_conflict(s, start, end, conflict) == Some(first),
    decreases p,
{
    if exists|q: int| start <= q < p && 0 <= q && conflict(#[trigger] s[q]) {
        let q = choose|q: int| start <= q < p && 0 <= q && conflict(#[trigger] s[q]);
        lemma_first_conflict_exists(s, start, end, conflict, q)
    } else {
        lemma_first_conflict_is(s, start, end, conflict, p);
        p
    }
}

/// Two lists of states that agree on a range have their first conflict in
/// it at the same offset.
pub proof fn lemma_first_conflict_local<S>(
    s: Seq<S>,
    t: Seq<S>,
    start: int,
    end: int,
    conflict: spec_fn(S) -> bool,
)
    requires
        s.len() == t.len(),
        forall|p: int| start <= p < end && 0 <= p < s.len() ==> #[trigger] s[p] == t[p],
    ensures
        first_conflict(s, start, end, conflict) == first_conflict(t, start, end, conflict),
{
    if exists|p: int| is_first_conflict(s, start, end, conflict, p) {
        let p = choose|p: int| is_first_conflict(s, start, end, conflict, p);
        assert(is_first_conflict(t, start, end, conflict, p)) by {
            assert(s[p] == t[p]);
            assert forall|q: int| start <= q < p && 0 <= q implies !conflict(#[trigger] t[q]) by {
                assert(s[q] == t[q]);
            }
        }
        lemma_first_conflict_is(t, start, end, conflict, p);
    } else if exists|p: int| is_first_conflict(t, start, end, conflict, p) {
        let p = choose|p: int| is_first_conflict(t, start, end, conflict, p);
        assert(is_first_conflict(s, start, end, conflict, p)) by {
            assert(s[p] == t[p]);
            assert forall|q: int| start <= q < p && 0 <= q implies !conflict(#[trigger] s[q]) by {
                assert(s[q] == t[q]);
            }
        }
    }
}

} // verus!
