use vstd::prelude::*;
use crate::error::{Error, Field};
use crate::memory::{le_u32, read_spec, read_u32_spec, decode_u32, MemoryImage, Region};
use crate::reader::{
    code_points, list_spec, read_address_list, read_fixed_record, read_string, record_spec, resolve_instance,
    resolve_spec, string_spec, ListOffsets, RecordLayout,
};
use crate::schema::{descriptor, descriptor_spec, ClassId};

verus! {

/// The client-state object's phase field.
pub const INTERNAL_STATE_OFFSET: u32 = 0x70;
/// The player manager's pair of task counters (total, completed).
pub const TASKS_OFFSET: u32 = 0x28;
/// The meeting screen's phase field.
pub const MEETING_STATE_OFFSET: u32 = 0x84;
/// The player manager's player list.
pub const PLAYER_LIST_PTR_OFFSET: u32 = 0x24;
/// A list's element count, within its backing object.
pub const PLAYER_LIST_SIZE_OFFSET: u32 = 0x0C;
/// A list's item array, within its backing object.
pub const PLAYER_LIST_FIRST_OBJECT: u32 = 0x08;
/// Element 0 of an array object, past the array's header.
pub const PLAYER_ARRAY_OFFSET: u32 = 0x10;
/// The runtime header (class and monitor pointers) before an object's fields.
pub const OBJECT_HEADER_SIZE: u32 = 8;
/// The bytes of a player record's fields.
pub const PLAYER_STRUCT_SIZE: usize = 44;

/// A session on one foreign process: the base address of its scripting-runtime module.
pub struct Game {
    pub module_base: u32,
}

/// A loaded module of the foreign process: its base address and base name.
pub struct Module {
    pub base: u32,
    pub name: Vec<u16>,
}

/// The coarse state of the foreign game at one poll.
#[derive(Debug, Clone)]
pub enum State {
    Menu,
    Lobby { players: Vec<Player> },
    InGame { meeting: MeetingState, players: Vec<Player>, tasks_completed: u32, tasks_total: u32 },
}

/// The phase of a meeting.
#[derive(Debug, Clone, Copy, PartialEq, Eq, Structural)]
pub enum MeetingState {
    Discussion,
    NotVoted,
    Voted,
    Results,
    Proceeding,
}

/// The foreign client's own classification of its phase.
#[derive(Debug, Clone, Copy, PartialEq, Eq, Structural)]
pub enum InternalState {
    NotJoined,
    Joined,
    Started,
    Ended,
}

/// One player, decoded from a player record.
#[derive(Debug, Clone)]
pub struct Player {
    pub id: u8,
    pub name: String,
    pub colour: i32,
    pub hat: u32,
    pub pet: u32,
    pub skin: u32,
    pub disconnected: bool,
    pub tasks_addr: u32,
    pub impostor: bool,
    pub dead: bool,
    pub game_object_addr: u32,
}

/// A player as a mathematical value.
pub ghost struct PlayerView {
    pub id: u8,
    /// The name's code points.
    pub name: Seq<u32>,
    pub colour: i32,
    pub hat: u32,
    pub pet: u32,
    pub skin: u32,
    pub disconnected: bool,
    pub tasks_addr: u32,
    pub impostor: bool,
    pub dead: bool,
    pub game_object_addr: u32,
}

/// A snapshot as a mathematical value.
pub ghost enum StateView {
    Menu,
    Lobby { players: Seq<PlayerView> },
    InGame { meeting: MeetingState, players: Seq<PlayerView>, tasks_completed: u32, tasks_total: u32 },
}

impl View for Player {
    type V = PlayerView;

    open spec fn view(&self) -> PlayerView {
        PlayerView {
            id: self.id,
            name: code_points(self.name@),
            colour: self.colour,
            hat: self.hat,
            pet: self.pet,
            skin: self.skin,
            disconnected: self.disconnected,
            tasks_addr: self.tasks_addr,
            impostor: self.impostor,
            dead: self.dead,
            game_object_addr: self.game_object_addr,
        }
    }
}

/// The views of a list of players.
pub open spec fn players_view(ps: Seq<Player>) -> Seq<PlayerView> {
    ps.map_values(|p: Player| p@)
}

impl View for State {
    type V = StateView;

    open spec fn view(&self) -> StateView {
        match self {
            State::Menu => StateView::Menu,
            State::Lobby { players } => StateView::Lobby { players: players_view(players@) },
            State::InGame { meeting, players, tasks_completed, tasks_total } => StateView::InGame {
                meeting: *meeting,
                players: players_view(players@),
                tasks_completed: *tasks_completed,
                tasks_total: *tasks_total,
            },
        }
    }
}

/// The phase that a foreign discriminant stands for.
pub open spec fn internal_state_of(v: u32) -> Result<InternalState, Error> {
    if v == 0 {
        Ok(InternalState::NotJoined)
    } else if v == 1 {
        Ok(InternalState::Joined)
    } else if v == 2 {
        Ok(InternalState::Started)
    } else if v == 3 {
        Ok(InternalState::Ended)
    } else {
        Err(Error::InvalidDiscriminant(Field::InternalState, v))
    }
}

/// The meeting phase that a foreign discriminant stands for.
pub open spec fn meeting_state_of(v: u32) -> Result<MeetingState, Error> {
    if v == 0 {
        Ok(MeetingState::Discussion)
    } else if v == 1 {
        Ok(MeetingState::NotVoted)
    } else if v == 2 {
        Ok(MeetingState::Voted)
    } else if v == 3 {
        Ok(MeetingState::Results)
    } else if v == 4 {
        Ok(MeetingState::Proceeding)
    } else {
        Err(Error::InvalidDiscriminant(Field::MeetingState, v))
    }
}

impl InternalState {
    /// Decodes a foreign discriminant; one outside the four phases fails.
    pub fn from_discriminant(v: u32) -> (r: Result<InternalState, Error>)
        ensures
            r == internal_state_of(v),
    {
        match v {
            0 => Ok(InternalState::NotJoined),
            1 => Ok(InternalState::Joined),
            2 => Ok(InternalState::Started),
            3 => Ok(InternalState::Ended),
            _ => Err(Error::InvalidDiscriminant(Field::InternalState, v)),
        }
    }
}

impl MeetingState {
    /// Decodes a foreign discriminant; one outside the five phases fails.
    pub fn from_discriminant(v: u32) -> (r: Result<MeetingState, Error>)
        ensures
            r == meeting_state_of(v),
    {
        match v {
            0 => Ok(MeetingState::Discussion),
            1 => Ok(MeetingState::NotVoted),
            2 => Ok(MeetingState::Voted),
            3 => Ok(MeetingState::Results),
            4 => Ok(MeetingState::Proceeding),
            _ => Err(Error::InvalidDiscriminant(Field::MeetingState, v)),
        }
    }
}

/// The layout of a player record.
pub open spec fn player_layout() -> RecordLayout {
    RecordLayout { header_skip: OBJECT_HEADER_SIZE, size: PLAYER_STRUCT_SIZE }
}

/// The four bytes at `i` of a record, as an integer.
pub open spec fn field_u32(raw: Seq<u8>, i: int) -> u32 {
    le_u32(raw.subrange(i, i + 4))
}

/// The fields of a 44-byte player record, with the name its pointer leads to.
pub open spec fn player_of(raw: Seq<u8>, name: Seq<u32>) -> PlayerView {
    PlayerView {
        id: raw[0],
        name,
        colour: field_u32(raw, 12) as i32,
        hat: field_u32(raw, 16),
        pet: field_u32(raw, 20),
        skin: field_u32(raw, 24),
        disconnected: raw[28] != 0,
        tasks_addr: field_u32(raw, 32),
        impostor: raw[36] != 0,
        dead: raw[37] != 0,
        game_object_addr: field_u32(raw, 40),
    }
}

/// The player whose record is at `addr`.
pub open spec fn player_spec(m: Seq<Region>, addr: u32) -> Result<PlayerView, Error> {
    match record_spec(m, addr, player_layout(), Field::PlayerRecord) {
        Err(e) => Err(e),
        Ok(raw) => match string_spec(m, field_u32(raw, 4)) {
            Err(e) => Err(e),
            Ok(name) => Ok(player_of(raw, name)),
        },
    }
}

/// The players at `addrs`, decoded in order; the first failure stops it.
pub open spec fn players_at(m: Seq<Region>, addrs: Seq<u32>) -> Result<Seq<PlayerView>, Error>
    decreases addrs.len(),
{
    if addrs.len() == 0 {
        Ok(Seq::empty())
    } else {
        match players_at(m, addrs.drop_last()) {
            Err(e) => Err(e),
            Ok(ps) => match player_spec(m, addrs.last()) {
                Err(e) => Err(e),
                Ok(p) => Ok(ps.push(p)),
            },
        }
    }
}

/// Where the player manager keeps its player list.
pub open spec fn player_list_offsets() -> ListOffsets {
    ListOffsets {
        backing_offset: PLAYER_LIST_PTR_OFFSET,
        count_offset: PLAYER_LIST_SIZE_OFFSET,
        items_offset: PLAYER_LIST_FIRST_OBJECT,
        data_offset: PLAYER_ARRAY_OFFSET,
    }
}

/// The players listed by the player manager at `pm`.
pub open spec fn players_spec(m: Seq<Region>, pm: u32) -> Result<Seq<PlayerView>, Error> {
    match list_spec(m, pm, player_list_offsets()) {
        Err(e) => Err(e),
        Ok(addrs) => players_at(m, addrs),
    }
}

/// The meeting phase: `Proceeding` where no meeting screen exists.
pub open spec fn meeting_spec(m: Seq<Region>, ms: u32) -> Result<MeetingState, Error> {
    if ms == 0 {
        Ok(MeetingState::Proceeding)
    } else {
        match read_u32_spec(m, ms, MEETING_STATE_OFFSET, Field::MeetingState) {
            Err(e) => Err(e),
            Ok(v) => meeting_state_of(v),
        }
    }
}

/// The snapshot of a match in progress, from the player manager on.
pub open spec fn in_game_spec(m: Seq<Region>, base: u32, pm: u32) -> Result<StateView, Error> {
    match read_spec(m, pm, TASKS_OFFSET, 8, Field::TaskOverview) {
        Err(e) => Err(e),
        Ok(t) => match players_spec(m, pm) {
            Err(e) => Err(e),
            Ok(players) => match resolve_spec(m, base, descriptor_spec(ClassId::MeetingScreen)) {
                Err(e) => Err(e),
                Ok(ms) => match meeting_spec(m, ms) {
                    Err(e) => Err(e),
                    Ok(meeting) => Ok(StateView::InGame {
                        meeting,
                        players,
                        tasks_completed: field_u32(t, 4),
                        tasks_total: field_u32(t, 0),
                    }),
                },
            },
        },
    }
}

/// The snapshot that one poll of the foreign memory `m` produces.
pub open spec fn state_spec(m: Seq<Region>, base: u32) -> Result<StateView, Error> {
    match resolve_spec(m, base, descriptor_spec(ClassId::ClientState)) {
        Err(e) => Err(e),
        Ok(cs) => match read_u32_spec(m, cs, INTERNAL_STATE_OFFSET, Field::InternalState) {
            Err(e) => Err(e),
            Ok(v) => match internal_state_of(v) {
                Err(e) => Err(e),
                Ok(InternalState::NotJoined) => Ok(StateView::Menu),
                Ok(phase) => match resolve_spec(m, base, descriptor_spec(ClassId::PlayerManager)) {
                    Err(e) => Err(e),
                    Ok(pm) => if phase == InternalState::Started {
                        in_game_spec(m, base, pm)
                    } else {
                        match players_spec(m, pm) {
                            Err(e) => Err(e),
                            Ok(players) => Ok(StateView::Lobby { players }),
                        }
                    },
                },
            },
        },
    }
}

/// "GameAssembly.dll" as UTF-16 code units.
pub open spec fn target_module_name() -> Seq<u16> {
    seq![0x47u16, 0x61, 0x6D, 0x65, 0x41, 0x73, 0x73, 0x65, 0x6D, 0x62, 0x6C, 0x79, 0x2E, 0x64, 0x6C, 0x6C]
}

fn target_name_units() -> (r: Vec<u16>)
    ensures
        r@ == target_module_name(),
{
    let mut v: Vec<u16> = Vec::new();
    v.push(0x47);
    v.push(0x61);
    v.push(0x6D);
    v.push(0x65);
    v.push(0x41);
    v.push(0x73);
    v.push(0x73);
    v.push(0x65);
    v.push(0x6D);
    v.push(0x62);
    v.push(0x6C);
    v.push(0x79);
    v.push(0x2E);
    v.push(0x64);
    v.push(0x6C);
    v.push(0x6C);
    assert(v@ =~= target_module_name());
    v
}

/// Whether `name` is exactly the scripting-runtime module's name.
fn is_target_name(name: &Vec<u16>) -> (r: bool)
    ensures
        r == (name@ == target_module_name()),
{
    let t = target_name_units();
    if name.len() != t.len() {
        return false;
    }
    let mut i: usize = 0;
    while i < t.len()
        invariant
            t@ == target_module_name(),
            name@.len() == t@.len(),
            i <= t@.len(),
            forall|j: int| 0 <= j < i ==> name@[j] == t@[j],
        decreases t@.len() - i,
    {
        if name[i] != t[i] {
            return false;
        }
        i = i + 1;
    }
    assert(name@ =~= t@);
    true
}

/// Decodes the players at `addrs`, in order.
fn read_players_at(mem: &MemoryImage, addrs: &Vec<u32>) -> (r: Result<Vec<Player>, Error>)
    ensures
        match r {
            Ok(ps) => players_at(mem.regions@, addrs@) == Ok::<Seq<PlayerView>, Error>(players_view(ps@)),
            Err(e) => players_at(mem.regions@, addrs@) == Err::<Seq<PlayerView>, Error>(e),
        },
{
    let mut out: Vec<Player> = Vec::new();
    let mut i: usize = 0;
    assert(addrs@.take(0) =~= Seq::<u32>::empty());
    assert(players_view(out@) =~= Seq::<PlayerView>::empty());
    while i < addrs.len()
        invariant
            i <= addrs@.len(),
            players_at(mem.regions@, addrs@.take(i as int)) == Ok::<Seq<PlayerView>, Error>(players_view(out@)),
        decreases addrs@.len() - i,
    {
        assert(addrs@.take(i + 1).drop_last() =~= addrs@.take(i as int));
        match read_player(mem, addrs[i]) {
            Err(e) => {
                proof {
                    lemma_players_stop(mem.regions@, addrs@, i + 1);
                }
                return Err(e);
            },
            Ok(p) => {
                proof {
                    assert(players_view(out@.push(p)) =~= players_view(out@).push(p@));
                }
                out.push(p);
                i = i + 1;
            },
        }
    }
    assert(addrs@.take(i as int) =~= addrs@);
    Ok(out)
}

/// Once decoding a prefix of the players fails, decoding all of them fails alike.
proof fn lemma_players_stop(m: Seq<Region>, addrs: Seq<u32>, k: int)
    requires
        0 <= k <= addrs.len(),
        players_at(m, addrs.take(k)) is Err,
    ensures
        players_at(m, addrs) == players_at(m, addrs.take(k)),
    decreases addrs.len() - k,
{
    if k < addrs.len() {
        assert(addrs.take(k + 1).drop_last() =~= addrs.take(k));
        lemma_players_stop(m, addrs, k + 1);
    } else {
        assert(addrs.take(k) =~= addrs);
    }
}

/// Reads and decodes the player record at `addr`, with its name.
pub fn read_player(mem: &MemoryImage, addr: u32) -> (r: Result<Player, Error>)
    ensures
        match r {
            Ok(p) => player_spec(mem.regions@, addr) == Ok::<PlayerView, Error>(p@),
            Err(e) => player_spec(mem.regions@, addr) == Err::<PlayerView, Error>(e),
        },
{
    let layout = RecordLayout { header_skip: OBJECT_HEADER_SIZE, size: PLAYER_STRUCT_SIZE };
    let raw = read_fixed_record(mem, addr, &layout, Field::PlayerRecord)?;
    let name = read_string(mem, decode_u32(&raw, 4))?;
    Ok(Player {
        id: raw[0],
        name,
        colour: decode_u32(&raw, 12) as i32,
        hat: decode_u32(&raw, 16),
        pet: decode_u32(&raw, 20),
        skin: decode_u32(&raw, 24),
        disconnected: raw[28] != 0,
        tasks_addr: decode_u32(&raw, 32),
        impostor: raw[36] != 0,
        dead: raw[37] != 0,
        game_object_addr: decode_u32(&raw, 40),
    })
}

/// Reads the players listed by the player manager at `pm`, in list order.
pub fn read_players(mem: &MemoryImage, pm: u32) -> (r: Result<Vec<Player>, Error>)
    ensures
        match r {
            Ok(ps) => players_spec(mem.regions@, pm) == Ok::<Seq<PlayerView>, Error>(players_view(ps@)),
            Err(e) => players_spec(mem.regions@, pm) == Err::<Seq<PlayerView>, Error>(e),
        },
{
    let offsets = ListOffsets {
        backing_offset: PLAYER_LIST_PTR_OFFSET,
        count_offset: PLAYER_LIST_SIZE_OFFSET,
        items_offset: PLAYER_LIST_FIRST_OBJECT,
        data_offset: PLAYER_ARRAY_OFFSET,
    };
    let addrs = read_address_list(mem, pm, &offsets)?;
    read_players_at(mem, &addrs)
}

/// Reads the meeting phase; a zero meeting screen means `Proceeding`.
pub fn read_meeting_progress(mem: &MemoryImage, meeting_screen: u32) -> (r: Result<MeetingState, Error>)
    ensures
        r == meeting_spec(mem.regions@, meeting_screen),
{
    if meeting_screen == 0 {
        return Ok(MeetingState::Proceeding);
    }
    let v = mem.read_u32(meeting_screen, MEETING_STATE_OFFSET, Field::MeetingState)?;
    MeetingState::from_discriminant(v)
}

impl Game {
    /// A session on a process whose scripting-runtime module is at `module_base`.
    pub fn new(module_base: u32) -> (r: Game)
        ensures
            r.module_base == module_base,
    {
        Game { module_base }
    }

    /// Picks the first module whose base name is exactly "GameAssembly.dll".
    pub fn from_modules(modules: &Vec<Module>) -> (r: Result<Game, Error>)
        ensures
            match r {
                Ok(g) => exists|i: int|
                    0 <= i < modules@.len() && modules@[i].name@ == target_module_name()
                        && g.module_base == modules@[i].base
                        && forall|j: int| 0 <= j < i ==> modules@[j].name@ != target_module_name(),
                Err(e) => e == Error::MissingGaError
                    && forall|i: int| 0 <= i < modules@.len() ==> modules@[i].name@ != target_module_name(),
            },
    {
        let mut i: usize = 0;
        while i < modules.len()
            invariant
                i <= modules@.len(),
                forall|j: int| 0 <= j < i ==> modules@[j].name@ != target_module_name(),
            decreases modules@.len() - i,
        {
            if is_target_name(&modules[i].name) {
                return Ok(Game { module_base: modules[i].base });
            }
            i = i + 1;
        }
        Err(Error::MissingGaError)
    }

    /// Reads one snapshot of the game's state out of `mem`.
    pub fn state(&self, mem: &MemoryImage) -> (r: Result<State, Error>)
        ensures
            match r {
                Ok(s) => state_spec(mem.regions@, self.module_base) == Ok::<StateView, Error>(s@),
                Err(e) => state_spec(mem.regions@, self.module_base) == Err::<StateView, Error>(e),
            },
    {
        let cs = resolve_instance(mem, self.module_base, &descriptor(ClassId::ClientState))?;
        let v = mem.read_u32(cs, INTERNAL_STATE_OFFSET, Field::InternalState)?;
        let phase = InternalState::from_discriminant(v)?;
        match phase {
            InternalState::NotJoined => Ok(State::Menu),
            InternalState::Joined | InternalState::Ended => {
                let pm = resolve_instance(mem, self.module_base, &descriptor(ClassId::PlayerManager))?;
                let players = read_players(mem, pm)?;
                Ok(State::Lobby { players })
            },
            InternalState::Started => {
                let pm = resolve_instance(mem, self.module_base, &descriptor(ClassId::PlayerManager))?;
                let t = mem.read_exact(pm, TASKS_OFFSET, 8, Field::TaskOverview)?;
                let tasks_total = decode_u32(&t, 0);
                let tasks_completed = decode_u32(&t, 4);
                let players = read_players(mem, pm)?;
                let ms = resolve_instance(mem, self.module_base, &descriptor(ClassId::MeetingScreen))?;
                let meeting = read_meeting_progress(mem, ms)?;
                Ok(State::InGame { meeting, players, tasks_completed, tasks_total })
            },
        }
    }
}

} // verus!
