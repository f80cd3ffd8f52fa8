use fighter_arena::arena::{draw_matchup_ids, Arena, INITIAL_ALLY_ID, INITIAL_ENEMY_ID};
use fighter_arena::fighter::{Allegiance, FighterRecord};
use fighter_arena::presentation::ElementKind;
use fighter_arena::registry::{FighterRegistry, LookupError, ROSTER_SIZE};
use fighter_arena::timer::{RefreshTimer, REFRESH_INTERVAL_MS};

fn roster(n: u32) -> FighterRegistry {
    let mut records = Vec::new();
    for id in 1..=n {
        let name = match id {
            1 => "Bulbasaur".to_string(),
            143 => "Snorlax".to_string(),
            _ => format!("Species{}", id),
        };
        records.push(FighterRecord::new(id, name, 5 + id % 50, 20 + 3 * id));
    }
    FighterRegistry::from_records(records).unwrap()
}

fn arena() -> Arena {
    Arena::new(roster(ROSTER_SIZE), RefreshTimer::new(REFRESH_INTERVAL_MS))
}

#[test]
fn initialize_shows_species_143_against_species_1() {
    let mut a = arena();
    assert_eq!(INITIAL_ALLY_ID, 143);
    assert_eq!(INITIAL_ENEMY_ID, 1);
    assert!(a.visible().is_empty());
    assert_eq!(a.initialize(), Ok(()));
    let ally = a.ally().unwrap();
    assert_eq!(ally.name, "Snorlax");
    assert_eq!(ally.allegiance, Allegiance::Ally);
    assert_eq!(ally.current_hit_points, a.registry().lookup(143).unwrap().total_hit_points);
    let enemy = a.enemy().unwrap();
    assert_eq!(enemy.name, "Bulbasaur");
    assert_eq!(enemy.allegiance, Allegiance::Enemy);
    assert_eq!(enemy.current_hit_points, a.registry().lookup(1).unwrap().total_hit_points);
    assert_eq!(a.visible().len(), 11);
    assert_eq!(a.visible().iter().filter(|e| e.side == Allegiance::Ally).count(), 6);
    assert_eq!(a.visible().iter().filter(|e| e.side == Allegiance::Enemy).count(), 5);
}

#[test]
fn initialize_fails_on_a_short_registry() {
    let mut a = Arena::new(roster(100), RefreshTimer::new(500));
    assert_eq!(a.initialize(), Err(LookupError::IdOutOfRange { id: 143 }));
    assert!(a.ally().is_none());
    assert!(a.visible().is_empty());
}

#[test]
fn refresh_replaces_every_old_element() {
    let mut a = arena();
    a.initialize().unwrap();
    assert_eq!(a.refresh_with(25, 25), Ok(()));
    assert_eq!(a.visible().len(), 11);
    assert!(a.visible().iter().all(|e| !e.content.contains("Snorlax") && !e.content.contains("SNORLAX")));
    assert!(a.visible().iter().all(|e| !e.content.contains("Bulbasaur") && !e.content.contains("BULBASAUR")));
    let names: Vec<&String> =
        a.visible().iter().filter(|e| e.kind == ElementKind::Name).map(|e| &e.content).collect();
    assert_eq!(names, vec!["SPECIES25", "SPECIES25"]);
}

#[test]
fn refresh_with_an_unknown_id_changes_nothing() {
    let mut a = arena();
    a.initialize().unwrap();
    assert_eq!(a.refresh_with(0, 5), Err(LookupError::IdOutOfRange { id: 0 }));
    assert_eq!(a.refresh_with(5, 152), Err(LookupError::IdOutOfRange { id: 152 }));
    assert_eq!(a.ally().unwrap().name, "Snorlax");
    assert_eq!(a.visible().len(), 11);
}

#[test]
fn clear_empties_the_screen() {
    let mut a = arena();
    a.initialize().unwrap();
    a.clear();
    assert!(a.visible().is_empty());
    assert!(a.ally().is_none());
    assert!(a.enemy().is_none());
}

#[test]
fn drawn_ids_stay_within_the_roster() {
    let mut low = false;
    let mut high = false;
    for _ in 0..100_000 {
        let (ally, enemy) = draw_matchup_ids();
        assert!((1..=151).contains(&ally));
        assert!((1..=151).contains(&enemy));
        low |= ally == 1 || enemy == 1;
        high |= ally == 151 || enemy == 151;
    }
    assert!(low && high);
}

#[test]
fn tick_refreshes_on_the_fiftieth_step() {
    let mut a = arena();
    a.initialize().unwrap();
    for _ in 0..49 {
        assert_eq!(a.tick(), Ok(false));
        assert_eq!(a.ally().unwrap().name, "Snorlax");
    }
    assert_eq!(a.tick(), Ok(true));
    assert_eq!(a.timer().elapsed(), 0);
    let ally = a.ally().unwrap();
    assert!((1..=151).contains(&ally.species_id));
    assert_eq!(ally.allegiance, Allegiance::Ally);
    assert_eq!(a.enemy().unwrap().allegiance, Allegiance::Enemy);
    assert_eq!(a.visible().len(), 11);
    assert_eq!(a.tick(), Ok(false));
}

#[test]
fn repeated_refreshes_never_leak_elements() {
    let mut a = Arena::new(roster(ROSTER_SIZE), RefreshTimer::new(10));
    for _ in 0..500 {
        assert_eq!(a.tick(), Ok(true));
        assert_eq!(a.visible().len(), 11);
        let ally_id = a.ally().unwrap().species_id;
        let enemy_id = a.enemy().unwrap().species_id;
        assert!((1..=151).contains(&ally_id) && (1..=151).contains(&enemy_id));
    }
}

#[test]
fn tick_reports_a_drawn_id_that_the_registry_lacks() {
    let mut a = Arena::new(roster(1), RefreshTimer::new(10));
    let mut failures = 0;
    for _ in 0..50 {
        match a.tick() {
            Err(LookupError::IdOutOfRange { id }) => {
                assert!((2..=151).contains(&id));
                failures += 1;
            }
            Ok(true) => assert_eq!(a.ally().unwrap().species_id, 1),
            Ok(false) => panic!("a ten-millisecond timer fires on every step"),
        }
    }
    assert!(failures > 0);
}
