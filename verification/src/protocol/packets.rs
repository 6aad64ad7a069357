//! Packet definitions for the game protocol and their byte encodings.

use vstd::prelude::*;
use vstd::bytes::*;
use vstd::utf8::*;
use super::codec::{le_bytes16, le_bytes32, le_bytes_u16, le_bytes_u32, le_value16, le_value32, lemma_le_bytes_roundtrip, read_u16, read_u32};

verus! {

/// Serialized size of a player state record.
pub const PLAYER_STATE_SIZE: usize = 24;

/// Serialized size of a client input record.
pub const CLIENT_INPUT_SIZE: usize = 16;

/// Size of the fixed world-state header (tick, player count, storm).
pub const WORLD_DELTA_HEADER_SIZE: usize = 17;

/// Player state: position in 16.16 fixed point, rotation in centi-degrees.
#[derive(Debug, Clone, Copy, PartialEq, Eq, Structural)]
pub struct PlayerState {
    pub player_id: u8,
    /// Fixed-point 16.16
    pub x: i32,
    /// Fixed-point 16.16
    pub y: i32,
    /// Fixed-point 16.16
    pub z: i32,
    /// Rotation in degrees * 100
    pub yaw: i16,
    /// Rotation in degrees * 100
    pub pitch: i16,
    pub health: u8,
    pub weapon_id: u8,
    /// Bit set of player state flags
    pub state: u8,
    /// Reserved byte, zero in fresh states
    pub padding: u8,
}

/// Player state flag bits.
pub const FLAG_ALIVE: u8 = 1;
pub const FLAG_JUMPING: u8 = 2;
pub const FLAG_CROUCHING: u8 = 4;
pub const FLAG_BUILDING: u8 = 8;
pub const FLAG_IN_BUS: u8 = 16;
pub const FLAG_PARACHUTE: u8 = 32;

impl Default for PlayerState {
    fn default() -> (r: Self)
        ensures
            r == PlayerState::zeroed(),
    {
        PlayerState {
            player_id: 0,
            x: 0,
            y: 0,
            z: 0,
            yaw: 0,
            pitch: 0,
            health: 0,
            weapon_id: 0,
            state: 0,
            padding: 0,
        }
    }
}

impl PlayerState {
    /// Serialized size in bytes.
    pub const SIZE: usize = 24;

    /// The all-zero player state.
    pub open spec fn zeroed() -> PlayerState {
        PlayerState {
            player_id: 0,
            x: 0,
            y: 0,
            z: 0,
            yaw: 0,
            pitch: 0,
            health: 0,
            weapon_id: 0,
            state: 0,
            padding: 0,
        }
    }

    /// The padding byte carried on the wire.
    pub open spec fn padding_byte(self) -> u8 {
        self.padding
    }

    /// A fresh player at the origin with full health.
    pub fn new(player_id: u8) -> (r: Self)
        ensures
            r == (PlayerState { player_id, health: 100, ..PlayerState::zeroed() }),
    {
        PlayerState {
            player_id,
            x: 0,
            y: 0,
            z: 0,
            yaw: 0,
            pitch: 0,
            health: 100,
            weapon_id: 0,
            state: 0,
            padding: 0,
        }
    }
}

/// Wire image of a player state: the packed fields in declaration order,
/// little-endian, followed by three zero bytes up to the record size.
pub open spec fn player_state_bytes(p: PlayerState) -> Seq<u8> {
    seq![p.player_id] + le_bytes32(p.x as u32) + le_bytes32(p.y as u32)
        + le_bytes32(p.z as u32) + le_bytes16(p.yaw as u16)
        + le_bytes16(p.pitch as u16) + seq![p.health, p.weapon_id, p.state, p.padding, 0u8, 0u8, 0u8]
}

/// Player state read from a 24-byte record (the last three bytes are ignored).
pub open spec fn player_state_from(b: Seq<u8>) -> PlayerState {
    PlayerState {
        player_id: b[0],
        x: (le_value32(b.subrange(1, 5)) as u32) as i32,
        y: (le_value32(b.subrange(5, 9)) as u32) as i32,
        z: (le_value32(b.subrange(9, 13)) as u32) as i32,
        yaw: (le_value16(b.subrange(13, 15)) as u16) as i16,
        pitch: (le_value16(b.subrange(15, 17)) as u16) as i16,
        health: b[17],
        weapon_id: b[18],
        state: b[19],
        padding: b[20],
    }
}

/// Client input packet.
#[derive(Debug, Clone, Copy, PartialEq, Eq, Structural)]
pub struct ClientInput {
    pub player_id: u8,
    pub sequence: u32,
    /// -1, 0, 1
    pub forward: i8,
    /// -1, 0, 1
    pub strafe: i8,
    pub jump: bool,
    pub crouch: bool,
    pub fire: bool,
    pub build: bool,
    pub exit_bus: bool,
    pub yaw: i16,
    pub pitch: i16,
}

impl Default for ClientInput {
    fn default() -> (r: Self)
        ensures
            r == ClientInput::idle(),
    {
        ClientInput {
            player_id: 0,
            sequence: 0,
            forward: 0,
            strafe: 0,
            jump: false,
            crouch: false,
            fire: false,
            build: false,
            exit_bus: false,
            yaw: 0,
            pitch: 0,
        }
    }
}

/// Button byte: jump, crouch, fire, build and exit-bus in bits 0 to 4.
pub open spec fn button_byte(c: ClientInput) -> u8 {
    ((if c.jump { 1int } else { 0 }) + (if c.crouch { 2int } else { 0 }) + (if c.fire { 4int } else { 0 })
        + (if c.build { 8int } else { 0 }) + (if c.exit_bus { 16int } else { 0 })) as u8
}

/// Wire image of a client input (16 bytes, the last four zero).
pub open spec fn client_input_bytes(c: ClientInput) -> Seq<u8> {
    seq![c.player_id] + le_bytes32(c.sequence) + seq![c.forward as u8, c.strafe as u8, button_byte(c)]
        + le_bytes16(c.yaw as u16) + le_bytes16(c.pitch as u16) + seq![0u8, 0u8, 0u8, 0u8]
}

/// Client input read from the first 16 bytes of `b`.
pub open spec fn client_input_from(b: Seq<u8>) -> ClientInput {
    ClientInput {
        player_id: b[0],
        sequence: (le_value32(b.subrange(1, 5)) as u32),
        forward: b[5] as i8,
        strafe: b[6] as i8,
        jump: b[7] & 1 != 0,
        crouch: b[7] & 2 != 0,
        fire: b[7] & 4 != 0,
        build: b[7] & 8 != 0,
        exit_bus: b[7] & 16 != 0,
        yaw: (le_value16(b.subrange(8, 10)) as u16) as i16,
        pitch: (le_value16(b.subrange(10, 12)) as u16) as i16,
    }
}

impl ClientInput {
    /// Serialized size in bytes.
    pub const SIZE: usize = 16;

    /// The input with no buttons and no movement.
    pub open spec fn idle() -> ClientInput {
        ClientInput {
            player_id: 0,
            sequence: 0,
            forward: 0,
            strafe: 0,
            jump: false,
            crouch: false,
            fire: false,
            build: false,
            exit_bus: false,
            yaw: 0,
            pitch: 0,
        }
    }

    /// Encode into the 16-byte wire format.
    pub fn encode(&self) -> (r: [u8; 16])
        ensures
            r@ == client_input_bytes(*self),
    {
        let mut buf = [0u8; 16];
        buf[0] = self.player_id;
        let seq_bytes = le_bytes_u32(self.sequence);
        buf[1] = seq_bytes[0];
        buf[2] = seq_bytes[1];
        buf[3] = seq_bytes[2];
        buf[4] = seq_bytes[3];
        buf[5] = self.forward as u8;
        buf[6] = self.strafe as u8;
        let b: u8 = (if self.jump { 1u8 } else { 0u8 }) + (if self.crouch { 2u8 } else { 0u8 })
            + (if self.fire { 4u8 } else { 0u8 }) + (if self.build { 8u8 } else { 0u8 })
            + (if self.exit_bus { 16u8 } else { 0u8 });
        buf[7] = b;
        let yaw_bytes = le_bytes_u16(self.yaw as u16);
        buf[8] = yaw_bytes[0];
        buf[9] = yaw_bytes[1];
        let pitch_bytes = le_bytes_u16(self.pitch as u16);
        buf[10] = pitch_bytes[0];
        buf[11] = pitch_bytes[1];
        proof {
            lemma_le_bytes_roundtrip();
        }
        assert(buf@ =~= client_input_bytes(*self));
        buf
    }

    /// Decode from the wire format; `None` when fewer than 16 bytes are given.
    pub fn decode(buf: &[u8]) -> (r: Option<Self>)
        ensures
            buf@.len() < 16 ==> r is None,
            buf@.len() >= 16 ==> r == Some(client_input_from(buf@)),
    {
        if buf.len() < Self::SIZE {
            return None;
        }
        let b7 = buf[7];
        Some(ClientInput {
            player_id: buf[0],
            sequence: read_u32(slice_range(buf, 1, 5)),
            forward: buf[5] as i8,
            strafe: buf[6] as i8,
            jump: b7 & 1 != 0,
            crouch: b7 & 2 != 0,
            fire: b7 & 4 != 0,
            build: b7 & 8 != 0,
            exit_bus: b7 & 16 != 0,
            yaw: read_u16(slice_range(buf, 8, 10)) as i16,
            pitch: read_u16(slice_range(buf, 10, 12)) as i16,
        })
    }
}

/// Append all of `more` to `buf`.
fn push_bytes(buf: &mut Vec<u8>, more: Vec<u8>)
    ensures
        final(buf)@ == old(buf)@ + more@,
{
    let mut more = more;
    buf.append(&mut more);
}

/// Append the wire image of a player state.
fn push_player_state(buf: &mut Vec<u8>, p: &PlayerState)
    ensures
        final(buf)@ == old(buf)@ + player_state_bytes(*p),
{
    let ghost start = buf@;
    buf.push(p.player_id);
    push_bytes(buf, le_bytes_u32(p.x as u32));
    push_bytes(buf, le_bytes_u32(p.y as u32));
    push_bytes(buf, le_bytes_u32(p.z as u32));
    push_bytes(buf, le_bytes_u16(p.yaw as u16));
    push_bytes(buf, le_bytes_u16(p.pitch as u16));
    buf.push(p.health);
    buf.push(p.weapon_id);
    buf.push(p.state);
    buf.push(p.padding);
    buf.push(0);
    buf.push(0);
    buf.push(0);
    assert(buf@ =~= start + player_state_bytes(*p));
}

/// Read a player state from a 24-byte record starting at `offset`.
fn read_player_state(buf: &[u8], offset: usize) -> (r: PlayerState)
    requires
        offset + 24 <= buf@.len(),
    ensures
        r == player_state_from(buf@.subrange(offset as int, offset + 24)),
{
    let _len = buf.len();
    let rec = slice_range(buf, offset, offset + 24);
    PlayerState {
        player_id: rec[0],
        x: read_u32(slice_range(rec, 1, 5)) as i32,
        y: read_u32(slice_range(rec, 5, 9)) as i32,
        z: read_u32(slice_range(rec, 9, 13)) as i32,
        yaw: read_u16(slice_range(rec, 13, 15)) as i16,
        pitch: read_u16(slice_range(rec, 15, 17)) as i16,
        health: rec[17],
        weapon_id: rec[18],
        state: rec[19],
        padding: rec[20],
    }
}

/// Concatenated wire images of a sequence of player states.
pub open spec fn players_bytes(ps: Seq<PlayerState>) -> Seq<u8>
    decreases ps.len(),
{
    if ps.len() == 0 {
        Seq::empty()
    } else {
        players_bytes(ps.drop_last()) + player_state_bytes(ps.last())
    }
}

/// World state delta (only changed players).
#[derive(Debug, Clone, PartialEq, Eq)]
pub struct WorldStateDelta {
    pub tick: u32,
    pub player_count: u8,
    pub players: Vec<PlayerState>,
    pub storm_x: i32,
    pub storm_z: i32,
    pub storm_radius: u32,
}

/// Mathematical content of a world state delta.
pub struct WorldDeltaView {
    pub tick: u32,
    pub player_count: u8,
    pub players: Seq<PlayerState>,
    pub storm_x: i32,
    pub storm_z: i32,
    pub storm_radius: u32,
}

impl View for WorldStateDelta {
    type V = WorldDeltaView;

    open spec fn view(&self) -> WorldDeltaView {
        WorldDeltaView {
            tick: self.tick,
            player_count: self.player_count,
            players: self.players@,
            storm_x: self.storm_x,
            storm_z: self.storm_z,
            storm_radius: self.storm_radius,
        }
    }
}

/// Wire image of a world delta: 17-byte header, then one record per player.
pub open spec fn world_delta_bytes(d: WorldDeltaView) -> Seq<u8> {
    le_bytes32(d.tick) + seq![d.player_count] + le_bytes32(d.storm_x as u32)
        + le_bytes32(d.storm_z as u32) + le_bytes32(d.storm_radius)
        + players_bytes(d.players)
}

/// How many player records a delta of `len` bytes announcing `count` players holds:
/// the announced count, cut short at the last complete record.
pub open spec fn parsed_player_count(len: int, count: int) -> int {
    if 17 + 24 * count <= len {
        count
    } else {
        (len - 17) / 24
    }
}

/// World delta read from `b`, which must hold at least the 17-byte header.
pub open spec fn world_delta_from(b: Seq<u8>) -> WorldDeltaView {
    WorldDeltaView {
        tick: (le_value32(b.subrange(0, 4)) as u32),
        player_count: b[4],
        players: Seq::new(
            parsed_player_count(b.len() as int, b[4] as int) as nat,
            |i: int| player_state_from(b.subrange(17 + 24 * i, 17 + 24 * i + 24)),
        ),
        storm_x: (le_value32(b.subrange(5, 9)) as u32) as i32,
        storm_z: (le_value32(b.subrange(9, 13)) as u32) as i32,
        storm_radius: (le_value32(b.subrange(13, 17)) as u32),
    }
}

impl WorldStateDelta {
    /// Encode into the wire format.
    pub fn encode(&self) -> (r: Vec<u8>)
        ensures
            r@ == world_delta_bytes(self@),
    {
        let mut buf: Vec<u8> = Vec::new();
        push_bytes(&mut buf, le_bytes_u32(self.tick));
        buf.push(self.player_count);
        push_bytes(&mut buf, le_bytes_u32(self.storm_x as u32));
        push_bytes(&mut buf, le_bytes_u32(self.storm_z as u32));
        push_bytes(&mut buf, le_bytes_u32(self.storm_radius));
        let ghost header = buf@;
        let mut i: usize = 0;
        while i < self.players.len()
            invariant
                i <= self.players@.len(),
                buf@ == header + players_bytes(self.players@.subrange(0, i as int)),
            decreases self.players@.len() - i,
        {
            push_player_state(&mut buf, &self.players[i]);
            proof {
                let ps = self.players@.subrange(0, i + 1);
                assert(ps.drop_last() =~= self.players@.subrange(0, i as int));
            }
            i += 1;
        }
        assert(self.players@.subrange(0, self.players@.len() as int) =~= self.players@);
        buf
    }

    /// Decode from the wire format; `None` when the 17-byte header is incomplete.
    /// Players are read up to the announced count, stopping at the last complete record.
    pub fn decode(buf: &[u8]) -> (r: Option<Self>)
        ensures
            buf@.len() < 17 <==> r is None,
            r matches Some(d) ==> d@ == world_delta_from(buf@),
    {
        if buf.len() < WORLD_DELTA_HEADER_SIZE {
            return None;
        }
        let tick = read_u32(slice_range(buf, 0, 4));
        let player_count = buf[4];
        let storm_x = read_u32(slice_range(buf, 5, 9)) as i32;
        let storm_z = read_u32(slice_range(buf, 9, 13)) as i32;
        let storm_radius = read_u32(slice_range(buf, 13, 17));
        let ghost b = buf@;
        let ghost k = parsed_player_count(b.len() as int, player_count as int);
        let mut players: Vec<PlayerState> = Vec::new();
        let mut offset: usize = WORLD_DELTA_HEADER_SIZE;
        let mut n: u8 = 0;
        while n < player_count
            invariant
                b == buf@,
                b.len() >= 17,
                player_count == b[4],
                k == parsed_player_count(b.len() as int, player_count as int),
                n <= player_count,
                offset == 17 + 24 * n,
                offset <= b.len(),
                n <= k,
                players@ =~= Seq::new(
                    n as nat,
                    |i: int| player_state_from(b.subrange(17 + 24 * i, 17 + 24 * i + 24)),
                ),
            ensures
                players@.len() == k,
                players@ =~= Seq::new(
                    k as nat,
                    |i: int| player_state_from(b.subrange(17 + 24 * i, 17 + 24 * i + 24)),
                ),
            decreases player_count - n,
        {
            if offset + PLAYER_STATE_SIZE > buf.len() {
                proof {
                    lemma_parsed_count_short(b.len() as int, player_count as int, n as int);
                }
                break;
            }
            let p = read_player_state(buf, offset);
            players.push(p);
            offset += PLAYER_STATE_SIZE;
            n += 1;
            proof {
                lemma_parsed_count_bound(b.len() as int, player_count as int, n as int);
            }
        }
        proof {
            if n == player_count {
                lemma_parsed_count_full(b.len() as int, player_count as int);
            }
        }
        Some(WorldStateDelta { tick, player_count, players, storm_x, storm_z, storm_radius })
    }
}

proof fn lemma_parsed_count_short(len: int, count: int, n: int)
    requires
        0 <= n < count,
        17 + 24 * n <= len,
        17 + 24 * n + 24 > len,
    ensures
        parsed_player_count(len, count) == n,
{
    assert(17 + 24 * count > len) by (nonlinear_arith)
        requires
            n < count,
            17 + 24 * n + 24 > len,
    ;
    assert((len - 17) / 24 == n) by (nonlinear_arith)
        requires
            24 * n <= len - 17 < 24 * n + 24,
    ;
}

proof fn lemma_parsed_count_bound(len: int, count: int, n: int)
    requires
        0 < n <= count,
        17 + 24 * n <= len,
    ensures
        n <= parsed_player_count(len, count),
{
    if 17 + 24 * count > len {
        assert((len - 17) / 24 >= n) by (nonlinear_arith)
            requires
                24 * n <= len - 17,
        ;
    }
}

proof fn lemma_parsed_count_full(len: int, count: int)
    requires
        0 <= count,
        count <= parsed_player_count(len, count),
        len >= 17,
    ensures
        parsed_player_count(len, count) == count,
{
    if 17 + 24 * count > len {
        assert((len - 17) / 24 < count) by (nonlinear_arith)
            requires
                17 + 24 * count > len,
                len >= 17,
        ;
    }
}

/// Length and record layout of concatenated player records.
proof fn lemma_players_bytes(ps: Seq<PlayerState>)
    ensures
        players_bytes(ps).len() == 24 * ps.len(),
        forall|i: int|
            0 <= i < ps.len() ==> #[trigger] players_bytes(ps).subrange(24 * i, 24 * i + 24)
                == player_state_bytes(ps[i]),
    decreases ps.len(),
{
    lemma_le_bytes_roundtrip();
    if ps.len() > 0 {
        let init = ps.drop_last();
        lemma_players_bytes(init);
        assert(player_state_bytes(ps.last()).len() == 24);
        let all = players_bytes(ps);
        assert(all == players_bytes(init) + player_state_bytes(ps.last()));
        assert forall|i: int| 0 <= i < ps.len() implies #[trigger] all.subrange(24 * i, 24 * i + 24)
            == player_state_bytes(ps[i]) by {
            if i < ps.len() - 1 {
                assert(all.subrange(24 * i, 24 * i + 24) =~= players_bytes(init).subrange(24 * i, 24 * i + 24));
                assert(init[i] == ps[i]);
            } else {
                assert(all.subrange(24 * i, 24 * i + 24) =~= player_state_bytes(ps.last()));
            }
        }
    }
}

/// A world delta whose announced player count matches its player list is read
/// back unchanged from its own encoding.
pub proof fn lemma_world_delta_roundtrip(d: WorldDeltaView)
    requires
        d.player_count == d.players.len(),
    ensures
        world_delta_from(world_delta_bytes(d)) == d,
{
    lemma_le_bytes_roundtrip();
    let b = world_delta_bytes(d);
    lemma_players_bytes(d.players);
    let header = le_bytes32(d.tick) + seq![d.player_count] + le_bytes32(d.storm_x as u32)
        + le_bytes32(d.storm_z as u32) + le_bytes32(d.storm_radius);
    assert(header.len() == 17);
    assert(b == header + players_bytes(d.players));
    assert(b.subrange(0, 4) =~= le_bytes32(d.tick));
    assert(b.subrange(5, 9) =~= le_bytes32(d.storm_x as u32));
    assert(b.subrange(9, 13) =~= le_bytes32(d.storm_z as u32));
    assert(b.subrange(13, 17) =~= le_bytes32(d.storm_radius));
    lemma_sign_casts(0, 0, d.storm_x);
    lemma_sign_casts(0, 0, d.storm_z);
    assert(b[4] == d.player_count);
    let got = world_delta_from(b);
    assert(got.players.len() == d.players.len());
    assert forall|i: int| 0 <= i < d.players.len() implies got.players[i] == d.players[i] by {
        assert(b.subrange(17 + 24 * i, 17 + 24 * i + 24) =~= players_bytes(d.players).subrange(24 * i, 24 * i + 24));
        lemma_player_state_roundtrip(d.players[i]);
    }
    assert(got.players =~= d.players);
}

/// Packet type codes.
pub const TYPE_JOIN_REQUEST: u8 = 1;
pub const TYPE_JOIN_RESPONSE: u8 = 2;
pub const TYPE_CLIENT_INPUT: u8 = 3;
pub const TYPE_WORLD_DELTA: u8 = 4;
pub const TYPE_PING: u8 = 5;
pub const TYPE_PONG: u8 = 6;

/// Packet types.
#[derive(Debug, Clone, PartialEq, Eq)]
pub enum Packet {
    /// Client requests to join game
    JoinRequest { name: String },
    /// Server responds with player ID
    JoinResponse { player_id: u8 },
    /// Client sends input
    ClientInput(ClientInput),
    /// Server sends world state
    WorldStateDelta(WorldStateDelta),
    /// Ping/pong for latency measurement
    Ping { timestamp: u64 },
    Pong { timestamp: u64 },
}

/// Mathematical content of a packet.
pub enum PacketView {
    JoinRequest { name: Seq<char> },
    JoinResponse { player_id: u8 },
    ClientInput(ClientInput),
    WorldStateDelta(WorldDeltaView),
    Ping { timestamp: u64 },
    Pong { timestamp: u64 },
}

impl View for Packet {
    type V = PacketView;

    open spec fn view(&self) -> PacketView {
        match self {
            Packet::JoinRequest { name } => PacketView::JoinRequest { name: name@ },
            Packet::JoinResponse { player_id } => PacketView::JoinResponse { player_id: *player_id },
            Packet::ClientInput(c) => PacketView::ClientInput(*c),
            Packet::WorldStateDelta(d) => PacketView::WorldStateDelta(d@),
            Packet::Ping { timestamp } => PacketView::Ping { timestamp: *timestamp },
            Packet::Pong { timestamp } => PacketView::Pong { timestamp: *timestamp },
        }
    }
}

/// Wire image of a packet: a type byte followed by the payload. A join request
/// carries its name's UTF-8 length in one byte (kept modulo 256) and then the bytes.
pub open spec fn packet_bytes(p: PacketView) -> Seq<u8> {
    match p {
        PacketView::JoinRequest { name } => seq![1u8, (encode_utf8(name).len() % 256) as u8] + encode_utf8(name),
        PacketView::JoinResponse { player_id } => seq![2u8, player_id],
        PacketView::ClientInput(c) => seq![3u8] + client_input_bytes(c),
        PacketView::WorldStateDelta(d) => seq![4u8] + world_delta_bytes(d),
        PacketView::Ping { timestamp } => seq![5u8] + spec_u64_to_le_bytes(timestamp),
        PacketView::Pong { timestamp } => seq![6u8] + spec_u64_to_le_bytes(timestamp),
    }
}

/// Characters that `String::from_utf8_lossy` makes of a byte sequence.
pub uninterp spec fn lossy_utf8(bytes: Seq<u8>) -> Seq<char>;

/// Text of a name field: the decoded characters of valid UTF-8, otherwise
/// what the lossy conversion makes of the bytes.
pub open spec fn utf8_text(bytes: Seq<u8>) -> Seq<char> {
    if valid_utf8(bytes) {
        decode_utf8(bytes)
    } else {
        lossy_utf8(bytes)
    }
}

/// Calls `String::from_utf8_lossy` and takes ownership of the result. The
/// contract names the result by its bytes alone and, as the standard library
/// documents, says that valid UTF-8 comes back unchanged; which replacement
/// characters stand in for invalid sequences is left unstated.
#[verifier::external_body]
fn string_from_utf8_lossy(bytes: &[u8]) -> (r: String)
    ensures
        r@ == lossy_utf8(bytes@),
        valid_utf8(bytes@) ==> r@ == decode_utf8(bytes@),
{
    String::from_utf8_lossy(bytes).into_owned()
}

/// Packet read from `b`, or `None` when `b` is not a complete packet.
pub open spec fn packet_from(b: Seq<u8>) -> Option<PacketView> {
    if b.len() == 0 {
        None
    } else if b[0] == 1 {
        if b.len() < 2 || b.len() < 2 + b[1] {
            None
        } else {
            Some(PacketView::JoinRequest { name: utf8_text(b.subrange(2, 2 + b[1])) })
        }
    } else if b[0] == 2 {
        if b.len() < 2 {
            None
        } else {
            Some(PacketView::JoinResponse { player_id: b[1] })
        }
    } else if b[0] == 3 {
        if b.len() < 17 {
            None
        } else {
            Some(PacketView::ClientInput(client_input_from(b.drop_first())))
        }
    } else if b[0] == 4 {
        if b.len() < 18 {
            None
        } else {
            Some(PacketView::WorldStateDelta(world_delta_from(b.drop_first())))
        }
    } else if b[0] == 5 || b[0] == 6 {
        if b.len() < 9 {
            None
        } else if b[0] == 5 {
            Some(PacketView::Ping { timestamp: spec_u64_from_le_bytes(b.subrange(1, 9)) })
        } else {
            Some(PacketView::Pong { timestamp: spec_u64_from_le_bytes(b.subrange(1, 9)) })
        }
    } else {
        None
    }
}

impl Packet {
    /// Encode into the wire format.
    pub fn encode(&self) -> (r: Vec<u8>)
        ensures
            r@ == packet_bytes(self@),
    {
        let mut buf: Vec<u8> = Vec::new();
        match self {
            Packet::JoinRequest { name } => {
                let bytes = name.as_str().as_bytes();
                buf.push(TYPE_JOIN_REQUEST);
                buf.push((bytes.len() % 256) as u8);
                let mut i: usize = 0;
                while i < bytes.len()
                    invariant
                        i <= bytes@.len(),
                        buf@ == seq![1u8, (bytes@.len() % 256) as u8] + bytes@.subrange(0, i as int),
                    decreases bytes@.len() - i,
                {
                    buf.push(bytes[i]);
                    i += 1;
                    assert(buf@ =~= seq![1u8, (bytes@.len() % 256) as u8] + bytes@.subrange(0, i as int));
                }
                assert(bytes@.subrange(0, bytes@.len() as int) =~= bytes@);
            },
            Packet::JoinResponse { player_id } => {
                buf.push(TYPE_JOIN_RESPONSE);
                buf.push(*player_id);
                assert(buf@ =~= seq![2u8, *player_id]);
            },
            Packet::ClientInput(input) => {
                buf.push(TYPE_CLIENT_INPUT);
                let enc = input.encode();
                let mut i: usize = 0;
                while i < 16
                    invariant
                        i <= 16,
                        enc@ == client_input_bytes(*input),
                        buf@ == seq![3u8] + enc@.subrange(0, i as int),
                    decreases 16 - i,
                {
                    buf.push(enc[i]);
                    i += 1;
                    assert(buf@ =~= seq![3u8] + enc@.subrange(0, i as int));
                }
                assert(enc@.subrange(0, 16) =~= enc@);
            },
            Packet::WorldStateDelta(delta) => {
                buf.push(TYPE_WORLD_DELTA);
                push_bytes(&mut buf, delta.encode());
            },
            Packet::Ping { timestamp } => {
                buf.push(TYPE_PING);
                push_bytes(&mut buf, u64_to_le_bytes(*timestamp));
            },
            Packet::Pong { timestamp } => {
                buf.push(TYPE_PONG);
                push_bytes(&mut buf, u64_to_le_bytes(*timestamp));
            },
        }
        buf
    }

    /// Decode from the wire format; `None` for an empty buffer, an unknown type
    /// byte, or a payload too short for its type.
    pub fn decode(buf: &[u8]) -> (r: Option<Self>)
        ensures
            r is None <==> packet_from(buf@) is None,
            r matches Some(p) ==> packet_from(buf@) == Some(p@),
    {
        let len = buf.len();
        if len == 0 {
            return None;
        }
        let t = buf[0];
        if t == TYPE_JOIN_REQUEST {
            if len < 2 {
                return None;
            }
            let n = buf[1] as usize;
            if len < 2 + n {
                return None;
            }
            let name = string_from_utf8_lossy(slice_range(buf, 2, 2 + n));
            Some(Packet::JoinRequest { name })
        } else if t == TYPE_JOIN_RESPONSE {
            if len < 2 {
                return None;
            }
            Some(Packet::JoinResponse { player_id: buf[1] })
        } else if t == TYPE_CLIENT_INPUT {
            let rest = slice_range(buf, 1, len);
            assert(rest@ =~= buf@.drop_first());
            match ClientInput::decode(rest) {
                Some(input) => Some(Packet::ClientInput(input)),
                None => None,
            }
        } else if t == TYPE_WORLD_DELTA {
            let rest = slice_range(buf, 1, len);
            assert(rest@ =~= buf@.drop_first());
            match WorldStateDelta::decode(rest) {
                Some(delta) => Some(Packet::WorldStateDelta(delta)),
                None => None,
            }
        } else if t == TYPE_PING || t == TYPE_PONG {
            if len < 9 {
                return None;
            }
            let timestamp = u64_from_le_bytes(slice_range(buf, 1, 9));
            if t == TYPE_PING {
                Some(Packet::Ping { timestamp })
            } else {
                Some(Packet::Pong { timestamp })
            }
        } else {
            None
        }
    }
}

/// A packet is read back unchanged from its own encoding, provided a join
/// request's name is at most 255 bytes of UTF-8 and a world delta announces
/// exactly as many players as it carries.
pub proof fn lemma_packet_roundtrip(p: PacketView)
    requires
        p matches PacketView::JoinRequest { name } ==> encode_utf8(name).len() <= 255,
        p matches PacketView::WorldStateDelta(d) ==> d.player_count == d.players.len(),
    ensures
        packet_from(packet_bytes(p)) == Some(p),
{
    broadcast use vstd::utf8::encode_utf8_decode_utf8, vstd::utf8::encode_utf8_valid_utf8;
    lemma_auto_spec_u64_to_from_le_bytes();
    let b = packet_bytes(p);
    match p {
        PacketView::JoinRequest { name } => {
            let e = encode_utf8(name);
            assert(b.subrange(2, 2 + b[1]) =~= e);
        },
        PacketView::JoinResponse { player_id } => {},
        PacketView::ClientInput(c) => {
            lemma_client_input_roundtrip(c);
            assert(b.drop_first() =~= client_input_bytes(c));
        },
        PacketView::WorldStateDelta(d) => {
            lemma_world_delta_roundtrip(d);
            lemma_le_bytes_roundtrip();
            lemma_players_bytes(d.players);
            assert(b.drop_first() =~= world_delta_bytes(d));
            assert(world_delta_bytes(d).len() >= 17);
        },
        PacketView::Ping { timestamp } => {
            assert(b.subrange(1, 9) =~= spec_u64_to_le_bytes(timestamp));
        },
        PacketView::Pong { timestamp } => {
            assert(b.subrange(1, 9) =~= spec_u64_to_le_bytes(timestamp));
        },
    }
}

/// The bytes `buf[start..end]`.
fn slice_range(buf: &[u8], start: usize, end: usize) -> (r: &[u8])
    requires
        start <= end <= buf@.len(),
    ensures
        r@ == buf@.subrange(start as int, end as int),
{
    &buf[start..end]
}

/// Casting a signed value to the unsigned type of the same width and back is the identity.
proof fn lemma_sign_casts(a: i8, b: i16, c: i32)
    ensures
        (a as u8) as i8 == a,
        (b as u16) as i16 == b,
        (c as u32) as i32 == c,
{
    assert((a as u8) as i8 == a) by (bit_vector);
    assert((b as u16) as i16 == b) by (bit_vector);
    assert((c as u32) as i32 == c) by (bit_vector);
}

/// The button byte holds each button in its own bit.
proof fn lemma_button_bits(c: ClientInput)
    ensures
        (button_byte(c) & 1 != 0) == c.jump,
        (button_byte(c) & 2 != 0) == c.crouch,
        (button_byte(c) & 4 != 0) == c.fire,
        (button_byte(c) & 8 != 0) == c.build,
        (button_byte(c) & 16 != 0) == c.exit_bus,
{
    let b = button_byte(c);
    let j: u8 = if c.jump { 1 } else { 0 };
    let k: u8 = if c.crouch { 2 } else { 0 };
    let f: u8 = if c.fire { 4 } else { 0 };
    let d: u8 = if c.build { 8 } else { 0 };
    let e: u8 = if c.exit_bus { 16 } else { 0 };
    assert(b == j + k + f + d + e);
    assert((b & 1 != 0) == (j == 1) && (b & 2 != 0) == (k == 2) && (b & 4 != 0) == (f == 4)
        && (b & 8 != 0) == (d == 8) && (b & 16 != 0) == (e == 16))
        by (bit_vector)
        requires
            (j == 0 || j == 1) && (k == 0 || k == 2) && (f == 0 || f == 4) && (d == 0 || d == 8)
                && (e == 0 || e == 16),
            b == j + k + f + d + e,
    ;
}

/// Decoding the encoding of a client input gives the same input back.
pub proof fn lemma_client_input_roundtrip(c: ClientInput)
    ensures
        client_input_bytes(c).len() == 16,
        client_input_from(client_input_bytes(c)) == c,
{
    lemma_le_bytes_roundtrip();
    lemma_sign_casts(c.forward, c.yaw, 0);
    lemma_sign_casts(c.strafe, c.pitch, 0);
    lemma_button_bits(c);
    let b = client_input_bytes(c);
    assert(b.subrange(1, 5) =~= le_bytes32(c.sequence));
    assert(b.subrange(8, 10) =~= le_bytes16(c.yaw as u16));
    assert(b.subrange(10, 12) =~= le_bytes16(c.pitch as u16));
}

/// Reading the wire image of a player state gives the same state back.
pub proof fn lemma_player_state_roundtrip(p: PlayerState)
    ensures
        player_state_bytes(p).len() == 24,
        player_state_from(player_state_bytes(p)) == p,
{
    lemma_le_bytes_roundtrip();
    lemma_sign_casts(0, p.yaw, p.x);
    lemma_sign_casts(0, p.pitch, p.y);
    lemma_sign_casts(0, 0, p.z);
    let b = player_state_bytes(p);
    assert(b.subrange(1, 5) =~= le_bytes32(p.x as u32));
    assert(b.subrange(5, 9) =~= le_bytes32(p.y as u32));
    assert(b.subrange(9, 13) =~= le_bytes32(p.z as u32));
    assert(b.subrange(13, 15) =~= le_bytes16(p.yaw as u16));
    assert(b.subrange(15, 17) =~= le_bytes16(p.pitch as u16));
}

} // verus!
