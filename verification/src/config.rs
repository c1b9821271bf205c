//! What the client is set up with: where the server is found, and how much
//! the queues between the tasks hold.

use vstd::prelude::*;
use vstd::string::*;
use crate::model::GetLayoutQuery;

verus! {

/// The radius of a room, which the layout request names.
pub const LAYOUT_RADIUS: i32 = 30;

/// How many items each queue holds before the one who fills it has to wait.
#[derive(Clone, Copy, Debug, PartialEq, Eq, Structural)]
pub struct ChannelCapacities {
    /// Snapshots on their way to the frame loop.
    pub new_entities: usize,
    /// Terrains on their way to the frame loop.
    pub new_terrain: usize,
    /// Notices of a handshake on their way to the frame loop.
    pub connected: usize,
    /// Messages on their way to the socket.
    pub outbound: usize,
}

impl Default for ChannelCapacities {
    fn default() -> (out: Self)
        ensures
            out == (ChannelCapacities {
                new_entities: 4,
                new_terrain: 4,
                connected: 2,
                outbound: 64,
            }),
    {
        ChannelCapacities { new_entities: 4, new_terrain: 4, connected: 2, outbound: 64 }
    }
}

/// The address of the live feed: the path `/object-stream` under the base
/// address of the socket server.
pub fn object_stream_url(ws_base_url: &str) -> (out: String)
    ensures
        out@ == ws_base_url@ + "/object-stream"@,
{
    let mut out = ws_base_url.to_owned();
    out.append("/object-stream");
    out
}

/// The address of the layout request: the path `/world/room-terrain-layout`
/// under the base address of the HTTP server.
pub fn room_layout_url(api_base_url: &str) -> (out: String)
    ensures
        out@ == api_base_url@ + "/world/room-terrain-layout"@,
{
    let mut out = api_base_url.to_owned();
    out.append("/world/room-terrain-layout");
    out
}

/// The query of the layout request.
pub fn layout_query() -> (out: GetLayoutQuery)
    ensures
        out == (GetLayoutQuery { radius: LAYOUT_RADIUS }),
{
    GetLayoutQuery { radius: LAYOUT_RADIUS }
}

} // verus!
