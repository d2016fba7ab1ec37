use game_memory::error::{Error, Field};
use game_memory::game::{read_player, Game, InternalState, MeetingState, Module, Player, State};
use game_memory::memory::{decode_u32, MemoryImage, INVALID_ADDRESS, PARTIAL_COPY};
use game_memory::reader::{
    read_address_list, read_fixed_record, read_string, resolve_instance, ClassDescriptor,
    ListOffsets, RecordLayout, MAX_LIST_LEN,
};
use game_memory::schema::{descriptor, ClassId};

const BASE: u32 = 0x1000_0000;

fn put_u32(mem: &mut MemoryImage, addr: u32, v: u32) {
    mem.add_region(addr, v.to_le_bytes().to_vec());
}

fn put_string(mem: &mut MemoryImage, addr: u32, s: &str) {
    let units: Vec<u16> = s.encode_utf16().collect();
    put_units(mem, addr, &units);
}

fn put_units(mem: &mut MemoryImage, addr: u32, units: &[u16]) {
    let mut bytes = vec![0u8; 8];
    bytes.extend_from_slice(&(units.len() as u32).to_le_bytes());
    for u in units {
        bytes.extend_from_slice(&u.to_le_bytes());
    }
    mem.add_region(addr, bytes);
}

/// Lays out the class, statics and instance pointers of `id`, with its class
/// object at `class` and its statics block at `statics`.
fn put_instance(mem: &mut MemoryImage, id: ClassId, class: u32, statics: u32, instance: u32) {
    let d = descriptor(id);
    put_u32(mem, BASE.wrapping_add(d.class_offset), class);
    put_u32(mem, class + d.statics_offset, statics);
    put_u32(mem, statics + d.instance_offset, instance);
}

fn put_player(mem: &mut MemoryImage, addr: u32, id: u8, name_addr: u32, colour: i32) {
    let mut raw = vec![0u8; 44];
    raw[0] = id;
    raw[4..8].copy_from_slice(&name_addr.to_le_bytes());
    raw[12..16].copy_from_slice(&colour.to_le_bytes());
    raw[16..20].copy_from_slice(&7u32.to_le_bytes());
    raw[20..24].copy_from_slice(&8u32.to_le_bytes());
    raw[24..28].copy_from_slice(&9u32.to_le_bytes());
    raw[28] = 0;
    raw[32..36].copy_from_slice(&0x5000u32.to_le_bytes());
    raw[36] = id;
    raw[37] = 0;
    raw[40..44].copy_from_slice(&0x6000u32.to_le_bytes());
    mem.add_region(addr + 8, raw);
}

/// A player manager at 0x3000 listing players at 0x4000 ("Red") and 0x4100 ("Blue").
fn put_players(mem: &mut MemoryImage, pm: u32) {
    let backing = 0x3100;
    let items = 0x3200;
    put_u32(mem, pm + 0x24, backing);
    put_u32(mem, backing + 0x0C, 2);
    put_u32(mem, backing + 0x08, items);
    put_u32(mem, items + 0x10, 0x4000);
    put_u32(mem, items + 0x14, 0x4100);
    put_player(mem, 0x4000, 0, 0x4800, 0);
    put_player(mem, 0x4100, 1, 0x4900, 1);
    put_string(mem, 0x4800, "Red");
    put_string(mem, 0x4900, "Blue");
}

fn game_with_phase(phase: u32) -> MemoryImage {
    let mut mem = MemoryImage::new();
    put_instance(&mut mem, ClassId::ClientState, 0x2000, 0x2100, 0x2200);
    put_u32(&mut mem, 0x2200 + 0x70, phase);
    put_instance(&mut mem, ClassId::PlayerManager, 0x2300, 0x2400, 0x3000);
    put_players(&mut mem, 0x3000);
    let mut tasks = 10u32.to_le_bytes().to_vec();
    tasks.extend_from_slice(&3u32.to_le_bytes());
    mem.add_region(0x3000 + 0x28, tasks);
    mem
}

fn names(players: &[Player]) -> Vec<String> {
    players.iter().map(|p| p.name.clone()).collect()
}

#[test]
fn menu_when_not_joined() {
    let mem = game_with_phase(0);
    let state = Game::new(BASE).state(&mem).unwrap();
    assert!(matches!(state, State::Menu));
}

#[test]
fn lobby_lists_players_in_order() {
    let mem = game_with_phase(1);
    match Game::new(BASE).state(&mem).unwrap() {
        State::Lobby { players } => {
            assert_eq!(names(&players), vec!["Red".to_string(), "Blue".to_string()]);
            assert_eq!(players[0].id, 0);
            assert_eq!(players[0].colour, 0);
            assert_eq!(players[1].id, 1);
            assert_eq!(players[1].colour, 1);
            assert_eq!(players[1].hat, 7);
            assert_eq!(players[1].pet, 8);
            assert_eq!(players[1].skin, 9);
            assert!(players[1].impostor);
            assert!(!players[0].impostor);
            assert_eq!(players[0].tasks_addr, 0x5000);
            assert_eq!(players[0].game_object_addr, 0x6000);
        }
        other => panic!("expected a lobby, got {:?}", other),
    }
}

#[test]
fn ended_is_a_lobby_too() {
    let mem = game_with_phase(3);
    assert!(matches!(Game::new(BASE).state(&mem).unwrap(), State::Lobby { .. }));
}

#[test]
fn in_game_without_meeting_screen_is_proceeding() {
    let mut mem = game_with_phase(2);
    put_instance(&mut mem, ClassId::MeetingScreen, 0x2500, 0x2600, 0);
    match Game::new(BASE).state(&mem).unwrap() {
        State::InGame { meeting, players, tasks_completed, tasks_total } => {
            assert_eq!(meeting, MeetingState::Proceeding);
            assert_eq!(tasks_completed, 3);
            assert_eq!(tasks_total, 10);
            assert_eq!(names(&players), vec!["Red".to_string(), "Blue".to_string()]);
        }
        other => panic!("expected a match in progress, got {:?}", other),
    }
}

fn meeting_with_discriminant(v: u32) -> Result<State, Error> {
    let mut mem = game_with_phase(2);
    put_instance(&mut mem, ClassId::MeetingScreen, 0x2500, 0x2600, 0x7000);
    put_u32(&mut mem, 0x7000 + 0x84, v);
    Game::new(BASE).state(&mem)
}

#[test]
fn meeting_discriminants_decode() {
    match meeting_with_discriminant(0).unwrap() {
        State::InGame { meeting, .. } => assert_eq!(meeting, MeetingState::Discussion),
        other => panic!("unexpected {:?}", other),
    }
    match meeting_with_discriminant(4).unwrap() {
        State::InGame { meeting, .. } => assert_eq!(meeting, MeetingState::Proceeding),
        other => panic!("unexpected {:?}", other),
    }
    assert_eq!(
        meeting_with_discriminant(5).unwrap_err(),
        Error::InvalidDiscriminant(Field::MeetingState, 5)
    );
}

#[test]
fn unknown_internal_state_fails() {
    let mem = game_with_phase(4);
    assert_eq!(
        Game::new(BASE).state(&mem).unwrap_err(),
        Error::InvalidDiscriminant(Field::InternalState, 4)
    );
}

#[test]
fn discriminant_decoders() {
    assert_eq!(InternalState::from_discriminant(2), Ok(InternalState::Started));
    assert_eq!(
        InternalState::from_discriminant(0xFFFF_FFFF),
        Err(Error::InvalidDiscriminant(Field::InternalState, 0xFFFF_FFFF))
    );
    assert_eq!(MeetingState::from_discriminant(3), Ok(MeetingState::Results));
    assert_eq!(
        MeetingState::from_discriminant(7),
        Err(Error::InvalidDiscriminant(Field::MeetingState, 7))
    );
}

#[test]
fn resolve_follows_three_hops() {
    let mut mem = MemoryImage::new();
    let d = ClassDescriptor { class_offset: 0x100, statics_offset: 0x5C, instance_offset: 4 };
    put_u32(&mut mem, BASE + 0x100, 0x2000);
    put_u32(&mut mem, 0x2000 + 0x5C, 0x3000);
    put_u32(&mut mem, 0x3000 + 4, 0xABCD);
    assert_eq!(resolve_instance(&mem, BASE, &d), Ok(0xABCD));
}

#[test]
fn resolve_names_the_missing_hop() {
    let d = ClassDescriptor { class_offset: 0x100, statics_offset: 0x5C, instance_offset: 4 };
    let mut mem = MemoryImage::new();
    match resolve_instance(&mem, BASE, &d) {
        Err(Error::ReadError { field, copied, code, .. }) => {
            assert_eq!(field, Field::ClassPointer);
            assert_eq!(copied, 0);
            assert_eq!(code, PARTIAL_COPY);
        }
        other => panic!("unexpected {:?}", other),
    }
    put_u32(&mut mem, BASE + 0x100, 0x2000);
    match resolve_instance(&mem, BASE, &d) {
        Err(Error::ReadError { field, address, .. }) => {
            assert_eq!(field, Field::StaticsPointer);
            assert_eq!(address, 0x205C);
        }
        other => panic!("unexpected {:?}", other),
    }
    put_u32(&mut mem, 0x2000 + 0x5C, 0x3000);
    match resolve_instance(&mem, BASE, &d) {
        Err(Error::ReadError { field, .. }) => assert_eq!(field, Field::InstancePointer),
        other => panic!("unexpected {:?}", other),
    }
}

#[test]
fn zero_instance_is_a_result() {
    let mut mem = MemoryImage::new();
    put_instance(&mut mem, ClassId::MeetingScreen, 0x2500, 0x2600, 0);
    assert_eq!(resolve_instance(&mem, BASE, &descriptor(ClassId::MeetingScreen)), Ok(0));
}

#[test]
fn short_record_reports_bytes_copied() {
    let mut mem = MemoryImage::new();
    mem.add_region(0x4008, vec![1u8; 30]);
    let layout = RecordLayout { header_skip: 8, size: 44 };
    assert_eq!(
        read_fixed_record(&mem, 0x4000, &layout, Field::PlayerRecord),
        Err(Error::ReadError {
            code: PARTIAL_COPY,
            copied: 30,
            field: Field::PlayerRecord,
            address: 0x4008,
            wanted: 44,
        })
    );
    mem.add_region(0x4008, vec![2u8; 44]);
    assert_eq!(read_fixed_record(&mem, 0x4000, &layout, Field::PlayerRecord), Ok(vec![2u8; 44]));
}

#[test]
fn player_with_truncated_record_fails() {
    let mut mem = MemoryImage::new();
    mem.add_region(0x4008, vec![0u8; 43]);
    match read_player(&mem, 0x4000) {
        Err(Error::ReadError { copied, field, .. }) => {
            assert_eq!(copied, 43);
            assert_eq!(field, Field::PlayerRecord);
        }
        other => panic!("unexpected {:?}", other),
    }
}

#[test]
fn empty_string_needs_no_payload() {
    let mut mem = MemoryImage::new();
    put_u32(&mut mem, 0x8008, 0);
    assert_eq!(read_string(&mem, 0x8000), Ok(String::new()));
}

#[test]
fn string_decodes_utf16() {
    let mut mem = MemoryImage::new();
    put_string(&mut mem, 0x8000, "Blue\u{1F600}");
    assert_eq!(read_string(&mem, 0x8000), Ok("Blue\u{1F600}".to_string()));
}

#[test]
fn truncated_string_is_a_read_error() {
    let mut mem = MemoryImage::new();
    mem.add_region(0x8008, vec![3, 0, 0, 0, b'a', 0, b'b', 0]);
    match read_string(&mem, 0x8000) {
        Err(Error::ReadError { copied, field, wanted, .. }) => {
            assert_eq!(copied, 4);
            assert_eq!(wanted, 6);
            assert_eq!(field, Field::StringPayload);
        }
        other => panic!("unexpected {:?}", other),
    }
}

#[test]
fn unpaired_surrogate_is_a_decode_error() {
    let mut mem = MemoryImage::new();
    put_units(&mut mem, 0x8000, &[0x0052, 0xD800, 0x0064]);
    assert_eq!(read_string(&mem, 0x8000), Err(Error::TextDecodeError));
    let mut mem = MemoryImage::new();
    put_units(&mut mem, 0x8000, &[0xDC00]);
    assert_eq!(read_string(&mem, 0x8000), Err(Error::TextDecodeError));
}

fn list_offsets() -> ListOffsets {
    ListOffsets { backing_offset: 0x24, count_offset: 0x0C, items_offset: 0x08, data_offset: 0x10 }
}

#[test]
fn empty_list_reads_no_items() {
    let mut mem = MemoryImage::new();
    put_u32(&mut mem, 0x3024, 0x3100);
    put_u32(&mut mem, 0x310C, 0);
    assert_eq!(read_address_list(&mem, 0x3000, &list_offsets()), Ok(vec![]));
}

#[test]
fn oversized_list_count_fails() {
    let mut mem = MemoryImage::new();
    put_u32(&mut mem, 0x3024, 0x3100);
    put_u32(&mut mem, 0x310C, MAX_LIST_LEN + 1);
    assert_eq!(
        read_address_list(&mem, 0x3000, &list_offsets()),
        Err(Error::ListCountInvalid(MAX_LIST_LEN + 1))
    );
    put_u32(&mut mem, 0x310C, 0xFFFF_FFFF);
    assert_eq!(
        read_address_list(&mem, 0x3000, &list_offsets()),
        Err(Error::ListCountInvalid(0xFFFF_FFFF))
    );
}

#[test]
fn list_elements_in_order() {
    let mut mem = MemoryImage::new();
    put_players(&mut mem, 0x3000);
    assert_eq!(read_address_list(&mem, 0x3000, &list_offsets()), Ok(vec![0x4000, 0x4100]));
}

#[test]
fn list_with_missing_element_fails() {
    let mut mem = MemoryImage::new();
    put_u32(&mut mem, 0x3024, 0x3100);
    put_u32(&mut mem, 0x310C, 3);
    put_u32(&mut mem, 0x3108, 0x3200);
    put_u32(&mut mem, 0x3210, 0x4000);
    put_u32(&mut mem, 0x3214, 0x4100);
    match read_address_list(&mem, 0x3000, &list_offsets()) {
        Err(Error::ReadError { field, address, .. }) => {
            assert_eq!(field, Field::ListElement);
            assert_eq!(address, 0x3218);
        }
        other => panic!("unexpected {:?}", other),
    }
}

#[test]
fn later_region_serves_first() {
    let mut mem = MemoryImage::new();
    mem.add_region(0x100, vec![1, 2, 3, 4, 5, 6]);
    mem.add_region(0x102, vec![9, 9]);
    assert_eq!(mem.read(0x100, 4), vec![1, 2, 3, 4]);
    assert_eq!(mem.read(0x102, 4), vec![9, 9]);
    assert_eq!(mem.read(0x104, 4), vec![5, 6]);
    assert_eq!(mem.read(0x200, 4), Vec::<u8>::new());
}

#[test]
fn little_endian_fields() {
    assert_eq!(decode_u32(&vec![0xAA, 0x78, 0x56, 0x34, 0x12], 1), 0x1234_5678);
    assert_eq!(decode_u32(&vec![0xFF, 0xFF, 0xFF, 0xFF], 0), 0xFFFF_FFFF);
}

#[test]
fn negative_colour_decodes() {
    let mut mem = MemoryImage::new();
    put_player(&mut mem, 0x4000, 5, 0x4800, -1);
    put_string(&mut mem, 0x4800, "Ghost");
    let p = read_player(&mem, 0x4000).unwrap();
    assert_eq!(p.colour, -1);
    assert_eq!(p.name, "Ghost");
    assert_eq!(p.id, 5);
}

fn module(base: u32, name: &str) -> Module {
    Module { base, name: name.encode_utf16().collect() }
}

#[test]
fn first_exact_module_name_wins() {
    let modules = vec![
        module(0x100, "game.exe"),
        module(0x200, "gameassembly.dll"),
        module(0x300, "GameAssembly.dll"),
        module(0x400, "GameAssembly.dll"),
    ];
    assert_eq!(Game::from_modules(&modules).unwrap().module_base, 0x300);
}

#[test]
fn missing_module_fails() {
    let modules = vec![module(0x100, "game.exe"), module(0x200, "GameAssembly.dl")];
    assert!(matches!(Game::from_modules(&modules), Err(Error::MissingGaError)));
    assert!(matches!(Game::from_modules(&vec![]), Err(Error::MissingGaError)));
}

#[test]
fn descriptor_table() {
    let d = descriptor(ClassId::PlayerManager);
    assert_eq!(d, ClassDescriptor { class_offset: 0x0290551C, statics_offset: 0x5C, instance_offset: 0 });
    assert_eq!(descriptor(ClassId::ClientState).class_offset, 0x028E98F4);
    assert_eq!(descriptor(ClassId::MeetingScreen).class_offset, 0x028E25A8);
}

#[test]
fn poll_fails_on_missing_player_manager() {
    let mut mem = MemoryImage::new();
    put_instance(&mut mem, ClassId::ClientState, 0x2000, 0x2100, 0x2200);
    put_u32(&mut mem, 0x2200 + 0x70, 1);
    match Game::new(BASE).state(&mem) {
        Err(Error::ReadError { field, .. }) => assert_eq!(field, Field::ClassPointer),
        other => panic!("unexpected {:?}", other),
    }
}

#[test]
fn repeated_polls_agree() {
    let mut mem = game_with_phase(2);
    put_instance(&mut mem, ClassId::MeetingScreen, 0x2500, 0x2600, 0);
    let game = Game::new(BASE);
    let a = format!("{:?}", game.state(&mem).unwrap());
    let b = format!("{:?}", game.state(&mem).unwrap());
    assert_eq!(a, b);
}

fn overflow(address: u32, field: Field, wanted: u64) -> Error {
    Error::ReadError { code: INVALID_ADDRESS, copied: 0, field, address, wanted }
}

#[test]
fn overflowing_hop_fails_instead_of_wrapping() {
    let d = ClassDescriptor { class_offset: 0x100, statics_offset: 0x5C, instance_offset: 4 };
    let mut mem = MemoryImage::new();
    // Bytes at the address that a wrapped sum would reach.
    put_u32(&mut mem, 0x50, 0x2000);
    put_u32(&mut mem, 0x2000 + 0x5C, 0x3000);
    put_u32(&mut mem, 0x3000 + 4, 0xABCD);
    assert_eq!(
        resolve_instance(&mem, 0xFFFF_FF50, &d),
        Err(overflow(0xFFFF_FF50, Field::ClassPointer, 4))
    );
    put_u32(&mut mem, BASE + 0x100, 0xFFFF_FFF0);
    put_u32(&mut mem, 0x4C, 0x3000);
    assert_eq!(
        resolve_instance(&mem, BASE, &d),
        Err(overflow(0xFFFF_FFF0, Field::StaticsPointer, 4))
    );
}

#[test]
fn overflowing_record_fails() {
    let mut mem = MemoryImage::new();
    mem.add_region(0, vec![0u8; 64]);
    let layout = RecordLayout { header_skip: 8, size: 44 };
    assert_eq!(
        read_fixed_record(&mem, 0xFFFF_FFFC, &layout, Field::PlayerRecord),
        Err(overflow(0xFFFF_FFFC, Field::PlayerRecord, 44))
    );
    assert_eq!(read_player(&mem, 0xFFFF_FFFC).unwrap_err(), overflow(0xFFFF_FFFC, Field::PlayerRecord, 44));
}

#[test]
fn overflowing_list_addresses_fail() {
    let mut mem = MemoryImage::new();
    put_u32(&mut mem, 0x10, 0x3100);
    assert_eq!(
        read_address_list(&mem, 0xFFFF_FFEC, &list_offsets()),
        Err(overflow(0xFFFF_FFEC, Field::ListBacking, 4))
    );
    put_u32(&mut mem, 0x3024, 0x3100);
    put_u32(&mut mem, 0x310C, 1);
    put_u32(&mut mem, 0x3108, 0xFFFF_FFF8);
    put_u32(&mut mem, 0x08, 0x4000);
    assert_eq!(
        read_address_list(&mem, 0x3000, &list_offsets()),
        Err(overflow(0xFFFF_FFF8, Field::ListElement, 4))
    );
}

#[test]
fn overflowing_string_payload_fails() {
    let mut mem = MemoryImage::new();
    mem.add_region(0xFFFF_FFFC, vec![2, 0, 0, 0]);
    mem.add_region(0x00, vec![b'h', 0, b'i', 0]);
    assert_eq!(
        read_string(&mem, 0xFFFF_FFF4),
        Err(overflow(0xFFFF_FFF4, Field::StringPayload, 4))
    );
}

#[test]
fn record_window_past_address_space_fails() {
    let mut mem = MemoryImage::new();
    mem.add_region(0xFFFF_FFF0, vec![0u8; 100]);
    put_u32(&mut mem, 0x08, 0);
    assert_eq!(read_player(&mem, 0xFFFF_FFF0).unwrap_err(), overflow(0xFFFF_FFF0, Field::PlayerRecord, 44));
    let layout = RecordLayout { header_skip: 8, size: 8 };
    assert_eq!(read_fixed_record(&mem, 0xFFFF_FFF0, &layout, Field::PlayerRecord), Ok(vec![0u8; 8]));
}

#[test]
fn pointer_window_past_address_space_fails() {
    let d = ClassDescriptor { class_offset: 0, statics_offset: 0, instance_offset: 0 };
    let mut mem = MemoryImage::new();
    mem.add_region(0xFFFF_FFFE, vec![1u8; 8]);
    assert_eq!(
        resolve_instance(&mem, 0xFFFF_FFFE, &d),
        Err(overflow(0xFFFF_FFFE, Field::ClassPointer, 4))
    );
}

#[test]
fn string_payload_past_address_space_fails() {
    let mut mem = MemoryImage::new();
    mem.add_region(0xFFFF_FFF0, vec![0u8; 8]);
    mem.add_region(0xFFFF_FFF8, vec![3, 0, 0, 0, b'a', 0, b'b', 0, b'c', 0]);
    assert_eq!(
        read_string(&mem, 0xFFFF_FFF0),
        Err(overflow(0xFFFF_FFF0, Field::StringPayload, 6))
    );
}
