//! The inspection protocol.
//!
//! A line-oriented text protocol: the one recognised command, `vertices`,
//! answers with the total vertex count across all meshes currently in
//! storage; anything else is answered with a fixed unknown-command reply.
//! The socket listener and its threads belong to the network collaborator,
//! which hands one pending command line to the core per frame and writes
//! the reply back.

use vstd::prelude::*;

use crate::mesh::Mesh;
use crate::storage::ComponentStorageManager;

verus! {

/// A recognised inspection command.
#[derive(Debug, Copy, Clone, PartialEq, Eq, Structural)]
pub enum DebugCommand {
    /// Report the total vertex count across all meshes.
    VERTICES,
    /// Anything unrecognised.
    ILLEGAL,
}

/// The reply to one command line.
#[derive(Debug, Copy, Clone, PartialEq, Eq, Structural)]
pub enum DebugResponse {
    /// The total vertex count, to be written in decimal.
    VertexCount(usize),
    /// The fixed unknown-command reply.
    UnknownCommand,
}

/// The total position count of the first `m` mesh entries.
pub open spec fn spec_vertex_total_prefix(s: Seq<(u32, Mesh)>, m: int) -> int
    decreases m,
{
    if m <= 0 {
        0
    } else {
        spec_vertex_total_prefix(s, m - 1) + s[m - 1].1.positions@.len()
    }
}

/// The total position count across all mesh entries.
pub open spec fn spec_vertex_total(s: Seq<(u32, Mesh)>) -> int {
    spec_vertex_total_prefix(s, s.len() as int)
}

/// Prefix totals only grow: each mesh contributes a non-negative count.
pub proof fn lemma_vertex_total_monotonic(s: Seq<(u32, Mesh)>, m1: int, m2: int)
    requires
        0 <= m1 <= m2,
    ensures
        spec_vertex_total_prefix(s, m1) <= spec_vertex_total_prefix(s, m2),
        0 <= spec_vertex_total_prefix(s, m1),
    decreases m2,
{
    if m2 > 0 && m1 < m2 {
        lemma_vertex_total_monotonic(s, m1, m2 - 1);
    } else if m2 > 0 {
        lemma_vertex_total_monotonic(s, m1 - 1, m2 - 1);
    }
}

/// Parses one trimmed command line.
pub fn parse_debug_command(command: &str) -> (r: DebugCommand)
    ensures
        command@ == "vertices"@ ==> r == DebugCommand::VERTICES,
        command@ != "vertices"@ ==> r == DebugCommand::ILLEGAL,
{
    let owned: String = command.to_owned();
    let target: String = "vertices".to_owned();
    if owned == target {
        DebugCommand::VERTICES
    } else {
        DebugCommand::ILLEGAL
    }
}

/// The total vertex count across all meshes currently in storage.
pub fn total_vertex_count<U>(storage: &ComponentStorageManager<U>) -> (n: usize)
    requires
        storage.wf(),
        spec_vertex_total(storage.mesh_manager.entries_seq()) <= usize::MAX,
    ensures
        n == spec_vertex_total(storage.mesh_manager.entries_seq()),
{
    let mut total: usize = 0;
    let count = storage.mesh_manager.len();
    let mut i: usize = 0;
    while i < count
        invariant
            i <= count,
            storage.wf(),
            count == storage.mesh_manager.spec_len(),
            spec_vertex_total(storage.mesh_manager.entries_seq()) <= usize::MAX,
            total == spec_vertex_total_prefix(storage.mesh_manager.entries_seq(), i as int),
        decreases count - i,
    {
        let entry = storage.mesh_manager.entry_at(i);
        proof {
            lemma_vertex_total_monotonic(
                storage.mesh_manager.entries_seq(),
                i as int + 1,
                count as int,
            );
        }
        total = total + entry.1.positions.len();
        i = i + 1;
    }
    total
}

/// Services one command line against the current storage: the `vertices`
/// command yields the total vertex count, anything else the fixed
/// unknown-command reply.
pub fn handle_debug_command<U>(storage: &ComponentStorageManager<U>, line: &str) -> (r:
    DebugResponse)
    requires
        storage.wf(),
        spec_vertex_total(storage.mesh_manager.entries_seq()) <= usize::MAX,
    ensures
        line@ == "vertices"@ ==> r == DebugResponse::VertexCount(
            spec_vertex_total(storage.mesh_manager.entries_seq()) as usize,
        ),
        line@ != "vertices"@ ==> r == DebugResponse::UnknownCommand,
{
    match parse_debug_command(line) {
        DebugCommand::VERTICES => DebugResponse::VertexCount(total_vertex_count(storage)),
        DebugCommand::ILLEGAL => DebugResponse::UnknownCommand,
    }
}

} // verus!
