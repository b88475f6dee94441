//! What a console client works out before and after it talks to a server:
//! where the server is, where a pattern file lies, what a pattern holds
//! and what a status says.

use crate::components::Position;
use crate::models::{PatternCell, PatternFile};
use crate::service::{Pattern, StatusResponse, StepResponse};
use crate::text::{ends_with, has_char, has_suffix, push_signed_decimal, push_text, signed_decimal, text_chars};
use std::time::Duration;
use vstd::prelude::*;
use vstd::string::StringExecFns;

verus! {

/// The port of a backend: each known backend has its own, and every other
/// name stands for the first.
pub open spec fn backend_port(backend: Seq<char>) -> u16 {
    if backend == "entt"@ {
        50052
    } else if backend == "flecs"@ {
        50053
    } else {
        50051
    }
}

/// Where a server is and how long the client waits for it.
pub struct BackendTarget {
    pub backend: String,
    pub host: String,
    pub port: u16,
    pub timeout: Duration,
}

impl BackendTarget {
    /// The server of `backend` at `host` and `port`.
    pub fn new(backend: String, host: String, port: u16, timeout: Duration) -> (target: BackendTarget)
        ensures
            target.backend == backend,
            target.host == host,
            target.port == port,
            target.timeout == timeout,
    {
        BackendTarget { backend, host, port, timeout }
    }

    /// The server of a backend by its name: on this machine, at the
    /// backend's port.
    pub fn for_backend(backend: &str, timeout: Duration) -> (target: BackendTarget)
        ensures
            target.backend@ == backend@,
            target.host@ == "localhost"@,
            target.port == backend_port(backend@),
            target.timeout == timeout,
    {
        let port: u16 = if crate::controller::same_text(backend, "entt") {
            50052
        } else if crate::controller::same_text(backend, "flecs") {
            50053
        } else {
            50051
        };
        BackendTarget { backend: backend.to_string(), host: "localhost".to_string(), port, timeout }
    }

    /// The same server with another time to wait.
    pub fn with_timeout(self, timeout: Duration) -> (target: BackendTarget)
        ensures
            target.backend == self.backend,
            target.host == self.host,
            target.port == self.port,
            target.timeout == timeout,
    {
        BackendTarget { backend: self.backend, host: self.host, port: self.port, timeout }
    }

    /// The line that names the backend.
    pub fn get_backend_info(&self) -> (info: String)
        ensures
            info@ == "Current backend: "@ + self.backend@,
    {
        "Current backend: ".to_string().concat(self.backend.as_str())
    }
}

/// Whether a pattern is given by a full path: one that starts at the root
/// or names a drive.
pub open spec fn is_full_path(pattern: Seq<char>) -> bool {
    (pattern.len() > 0 && pattern[0] == '/') || pattern.contains(':')
}

/// The file of a pattern: a full path is the file; a file name stands for
/// the file of that name among the patterns; any other name stands for the
/// file of that name with the ending of pattern files.
pub open spec fn pattern_file_of(pattern: Seq<char>) -> Seq<char> {
    if is_full_path(pattern) {
        pattern
    } else if ends_with(pattern, ".json"@) {
        "../patterns/"@ + pattern
    } else {
        "../patterns/"@ + pattern + ".json"@
    }
}

/// The file of a pattern.
pub fn pattern_file_path(pattern: &str) -> (file: String)
    ensures
        file@ == pattern_file_of(pattern@),
{
    let chars = text_chars(pattern);
    let suffix = text_chars(".json");
    if (chars.len() > 0 && chars[0] == '/') || has_char(chars.as_slice(), ':') {
        pattern.to_string()
    } else if has_suffix(chars.as_slice(), suffix.as_slice()) {
        "../patterns/".to_string().concat(pattern)
    } else {
        "../patterns/".to_string().concat(pattern).concat(".json")
    }
}

/// The file of the pattern built in under `name`.
pub fn named_pattern_file(name: &str) -> (file: String)
    ensures
        file@ == "../patterns/"@ + name@ + ".json"@,
{
    "../patterns/".to_string().concat(name).concat(".json")
}

/// The positions of the cells of a pattern file.
pub open spec fn file_positions(cells: Seq<PatternCell>) -> Seq<Position> {
    cells.map_values(|c: PatternCell| Position { x: c.x, y: c.y })
}

/// The pattern that a pattern file holds, as requests carry it.
pub fn convert_to_grpc_pattern(pattern_file: PatternFile) -> (pattern: Pattern)
    ensures
        pattern.name == pattern_file.name,
        pattern.description == pattern_file.description,
        pattern.author == pattern_file.author,
        pattern.cells@ == file_positions(pattern_file.cells@),
{
    let mut cells: Vec<Position> = Vec::new();
    let mut i: usize = 0;
    while i < pattern_file.cells.len()
        invariant
            i <= pattern_file.cells.len(),
            cells@.len() == i,
            forall|j: int|
                0 <= j < i ==> #[trigger] cells@[j] == (Position {
                    x: pattern_file.cells@[j].x,
                    y: pattern_file.cells@[j].y,
                }),
        decreases pattern_file.cells.len() - i,
    {
        cells.push(Position { x: pattern_file.cells[i].x, y: pattern_file.cells[i].y });
        i += 1;
    }
    proof {
        assert(cells@ =~= file_positions(pattern_file.cells@));
    }
    Pattern {
        name: pattern_file.name,
        description: pattern_file.description,
        author: pattern_file.author,
        cells,
    }
}

/// Whether `extent` is the width and the height of the smallest box that
/// holds every cell of the list.
pub open spec fn is_extent(extent: (i64, i64), cells: Seq<PatternCell>) -> bool {
    exists|min_x: int, min_y: int, max_x: int, max_y: int|
        #![trigger extent_box(min_x, min_y, max_x, max_y)]
        {
            &&& extent.0 == max_x - min_x + 1
            &&& extent.1 == max_y - min_y + 1
            &&& forall|i: int|
                0 <= i < cells.len() ==> min_x <= (#[trigger] cells[i]).x <= max_x && min_y
                    <= cells[i].y <= max_y
            &&& exists|i: int| 0 <= i < cells.len() && (#[trigger] cells[i]).x == min_x
            &&& exists|i: int| 0 <= i < cells.len() && (#[trigger] cells[i]).x == max_x
            &&& exists|i: int| 0 <= i < cells.len() && (#[trigger] cells[i]).y == min_y
            &&& exists|i: int| 0 <= i < cells.len() && (#[trigger] cells[i]).y == max_y
            &&& extent_box(min_x, min_y, max_x, max_y)
        }
}

/// A box, named so that it can be spoken of.
pub open spec fn extent_box(min_x: int, min_y: int, max_x: int, max_y: int) -> bool {
    min_x <= max_x && min_y <= max_y
}

/// The width and the height of the smallest box that holds every cell of a
/// pattern, or nothing for a pattern without cells.
pub fn pattern_extent(cells: &[PatternCell]) -> (extent: Option<(i64, i64)>)
    ensures
        match extent {
            Some(e) => cells@.len() > 0 && is_extent(e, cells@),
            None => cells@.len() == 0,
        },
{
    if cells.len() == 0 {
        return None;
    }
    let mut min_x = cells[0].x;
    let mut max_x = cells[0].x;
    let mut min_y = cells[0].y;
    let mut max_y = cells[0].y;
    let mut i: usize = 1;
    while i < cells.len()
        invariant
            1 <= i <= cells.len(),
            min_x <= max_x,
            min_y <= max_y,
            forall|j: int|
                0 <= j < i ==> min_x <= (#[trigger] cells@[j]).x <= max_x && min_y <= cells@[j].y
                    <= max_y,
            exists|j: int| 0 <= j < i && (#[trigger] cells@[j]).x == min_x,
            exists|j: int| 0 <= j < i && (#[trigger] cells@[j]).x == max_x,
            exists|j: int| 0 <= j < i && (#[trigger] cells@[j]).y == min_y,
            exists|j: int| 0 <= j < i && (#[trigger] cells@[j]).y == max_y,
        decreases cells.len() - i,
    {
        let x = cells[i].x;
        let y = cells[i].y;
        if x < min_x {
            min_x = x;
        }
        if x > max_x {
            max_x = x;
        }
        if y < min_y {
            min_y = y;
        }
        if y > max_y {
            max_y = y;
        }
        i += 1;
    }
    let extent = (max_x as i64 - min_x as i64 + 1, max_y as i64 - min_y as i64 + 1);
    proof {
        assert(extent_box(min_x as int, min_y as int, max_x as int, max_y as int));
    }
    Some(extent)
}

/// The text of a status.
pub open spec fn status_text_of(status: StatusResponse) -> Seq<char> {
    "Server Status: "@ + status.status@ + "\nVersion: "@ + status.version@ + "\nImplementation: "@
        + status.implementation@ + "\nUptime: "@ + signed_decimal(status.uptime_seconds as int)
        + " seconds"@
}

/// The text of a status: four lines that say how the server is, what it
/// is and for how long it has been up.
pub fn status_text(status: &StatusResponse) -> (text: String)
    ensures
        text@ == status_text_of(*status),
{
    let mut text = String::new();
    push_text(&mut text, "Server Status: ");
    push_text(&mut text, status.status.as_str());
    push_text(&mut text, "\nVersion: ");
    push_text(&mut text, status.version.as_str());
    push_text(&mut text, "\nImplementation: ");
    push_text(&mut text, status.implementation.as_str());
    push_text(&mut text, "\nUptime: ");
    push_signed_decimal(&mut text, status.uptime_seconds);
    push_text(&mut text, " seconds");
    proof {
        assert(text@ =~= status_text_of(*status));
    }
    text
}

/// Whether playing goes on after a step: it stops when no cell is left
/// alive.
pub fn play_continues(response: &StepResponse) -> (goes_on: bool)
    ensures
        goes_on == (response.live_cells != 0),
{
    response.live_cells != 0
}

} // verus!
