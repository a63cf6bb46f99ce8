use listener_bot::bot_state::read_through;
use listener_bot::bot_state::validate_data_size;
use listener_bot::bot_state::validate_user_state;
use listener_bot::bot_state::write_through;
use listener_bot::bot_state::BotState;
use listener_bot::bot_state::HISTORY_LIMIT_KB;
use listener_bot::bot_state::TEMPERATURES_LIMIT_KB;
use listener_bot::cache::UserCache;
use listener_bot::cache::CACHE_TTL_SECONDS;
use listener_bot::database::Database;
use listener_bot::error::BotStateError;
use listener_bot::models::user_state::UserState;

const NOW: i64 = 1_700_000_000_000_000;
const TTL: i64 = 300_000_000;

fn state_with_model(model: &str) -> UserState {
    let mut state = UserState::default();
    state.current_model = model.to_string();
    state
}

fn unreachable() -> BotStateError {
    BotStateError::DatabaseError("store unreachable".to_string())
}

#[test]
fn the_state_of_an_unknown_user_is_empty() {
    let state = UserState::default();
    assert_eq!(state.current_model, "");
    assert_eq!(state.current_session, None);
    assert_eq!(state.conversation_history, b"{}".to_vec());
    assert_eq!(state.user_temperatures, b"{}".to_vec());
    assert_eq!(state.scheduled_time, None);
}

#[test]
fn the_caps_are_five_and_one_kibibytes_and_the_cache_lives_five_minutes() {
    assert_eq!(HISTORY_LIMIT_KB, 5);
    assert_eq!(TEMPERATURES_LIMIT_KB, 1);
    assert_eq!(CACHE_TTL_SECONDS, 300);
}

#[test]
fn a_record_at_its_cap_is_accepted_and_one_byte_more_is_not() {
    assert_eq!(validate_data_size(&vec![0u8; 5120], 5), Ok(()));
    assert_eq!(validate_data_size(&vec![0u8; 5121], 5), Err(BotStateError::DataTooLarge(5121)));
    assert_eq!(validate_data_size(&vec![], 0), Ok(()));
    assert_eq!(validate_data_size(&vec![0u8; 1], 0), Err(BotStateError::DataTooLarge(1)));
    assert_eq!(validate_data_size(&vec![0u8; 1024], 1), Ok(()));
    assert_eq!(validate_data_size(&vec![0u8; 1025], 1), Err(BotStateError::DataTooLarge(1025)));
    assert_eq!(validate_data_size(&vec![0u8; 10], usize::MAX), Ok(()));
}

#[test]
fn the_history_is_checked_before_the_temperatures() {
    let mut state = UserState::default();
    assert_eq!(validate_user_state(&state), Ok(()));
    state.user_temperatures = vec![b' '; 2000];
    assert_eq!(validate_user_state(&state), Err(BotStateError::DataTooLarge(2000)));
    state.conversation_history = vec![b' '; 6000];
    assert_eq!(validate_user_state(&state), Err(BotStateError::DataTooLarge(6000)));
    state.user_temperatures = vec![b' '; 1024];
    state.conversation_history = vec![b' '; 5120];
    assert_eq!(validate_user_state(&state), Ok(()));
}

#[test]
fn a_cache_entry_answers_for_five_minutes() {
    let mut cache = UserCache::new();
    assert_eq!(cache.len(), 0);
    assert_eq!(cache.lookup(7, NOW), None);
    let state = state_with_model("GigaChat-2-Max");
    cache.remember(7, state.clone(), NOW);
    assert_eq!(cache.len(), 1);
    assert_eq!(cache.lookup(7, NOW), Some(state.clone()));
    assert_eq!(cache.lookup(7, NOW + TTL - 1), Some(state.clone()));
    assert_eq!(cache.lookup(7, NOW + TTL), None);
    assert_eq!(cache.lookup(7, NOW - 1), Some(state.clone()));
    assert_eq!(cache.lookup(8, NOW), None);
    assert_eq!(cache.len(), 1);
}

#[test]
fn a_new_entry_takes_the_place_of_the_old_one() {
    let mut cache = UserCache::new();
    cache.remember(7, state_with_model("a"), NOW);
    cache.remember(7, state_with_model("b"), NOW + 10);
    assert_eq!(cache.len(), 1);
    assert_eq!(cache.lookup(7, NOW + TTL + 9), Some(state_with_model("b")));
    assert_eq!(cache.lookup(7, NOW + TTL + 10), None);
}

#[test]
fn eviction_drops_the_stale_entries_only() {
    let mut cache = UserCache::new();
    cache.remember(1, state_with_model("a"), NOW);
    cache.remember(2, state_with_model("b"), NOW + 100);
    cache.remember(3, state_with_model("c"), NOW + 200);
    cache.evict_stale(NOW + TTL - 1);
    assert_eq!(cache.len(), 3);
    cache.evict_stale(NOW + TTL + 100);
    assert_eq!(cache.len(), 1);
    assert_eq!(cache.lookup(3, NOW + TTL + 100), Some(state_with_model("c")));
    assert_eq!(cache.lookup(1, NOW), None);
    assert_eq!(cache.lookup(2, NOW + 100), None);
    cache.evict_stale(i64::MAX);
    assert_eq!(cache.len(), 0);
}

#[test]
fn a_read_that_the_store_answered_enters_the_cache() {
    let mut cache = UserCache::new();
    let stored = state_with_model("GigaChat-2-Max");
    assert_eq!(read_through(&mut cache, 7, Ok(Some(stored.clone())), NOW), stored);
    assert_eq!(cache.lookup(7, NOW), Some(stored));
    assert_eq!(read_through(&mut cache, 8, Ok(None), NOW), UserState::default());
    assert_eq!(cache.lookup(8, NOW), Some(UserState::default()));
    assert_eq!(cache.len(), 2);
}

#[test]
fn a_read_that_the_store_failed_hands_out_the_empty_state_and_caches_nothing() {
    let mut cache = UserCache::new();
    cache.remember(7, state_with_model("old"), NOW - TTL);
    assert_eq!(read_through(&mut cache, 7, Err(unreachable()), NOW), UserState::default());
    assert_eq!(read_through(&mut cache, 8, Err(BotStateError::SerializationError("bad".to_string())), NOW), UserState::default());
    assert_eq!(cache.len(), 1);
    assert_eq!(cache.lookup(7, NOW - 1), Some(state_with_model("old")));
    assert_eq!(cache.lookup(8, NOW), None);
}

#[test]
fn a_write_enters_the_cache_only_once_the_store_has_taken_it() {
    let mut cache = UserCache::new();
    let state = state_with_model("GigaChat-2-Max");
    assert_eq!(write_through(&mut cache, 7, state.clone(), Err(unreachable()), NOW), Err(unreachable()));
    assert_eq!(cache.len(), 0);
    assert_eq!(write_through(&mut cache, 7, state.clone(), Ok(()), NOW), Ok(()));
    assert_eq!(cache.lookup(7, NOW), Some(state));
}

#[test]
fn a_saved_state_is_read_back_within_the_time_to_live_without_the_store() {
    let mut engine = BotState::new(Database::new());
    let mut state = state_with_model("GigaChat-2-Max");
    state.scheduled_time = Some(NOW + 1);
    assert_eq!(engine.save_user_state(7, state.clone(), NOW), Ok(()));
    assert_eq!(engine.cached_entries(), 1);

    engine.set_store_reachable(false);
    assert_eq!(engine.get_user_state(7, NOW), state);
    assert_eq!(engine.get_user_state(7, NOW + TTL - 1), state);
    assert_eq!(engine.get_user_state(7, NOW + TTL), UserState::default());
    assert_eq!(engine.get_user_state(7, NOW + TTL - 1), state);
}

#[test]
fn the_last_of_several_saves_is_what_is_read() {
    let mut engine = BotState::new(Database::new());
    engine.save_user_state(7, state_with_model("a"), NOW).unwrap();
    engine.save_user_state(8, state_with_model("x"), NOW + 1).unwrap();
    engine.save_user_state(7, state_with_model("b"), NOW + 2).unwrap();
    assert_eq!(engine.get_user_state(7, NOW + 3), state_with_model("b"));
    assert_eq!(engine.get_user_state(8, NOW + 3), state_with_model("x"));
    engine.cleanup_cache(NOW + 3);
    assert_eq!(engine.get_user_state(7, NOW + 4), state_with_model("b"));
    assert_eq!(engine.cached_entries(), 2);
}

#[test]
fn after_the_time_to_live_a_read_hands_out_what_the_store_holds() {
    let mut engine = BotState::new(Database::new());
    let mut state = state_with_model("GigaChat-2-Max");
    state.scheduled_time = Some(NOW + 1);
    engine.save_user_state(7, state.clone(), NOW).unwrap();
    let later = NOW + TTL;
    let read = engine.get_user_state(7, later);
    let stored = engine.database().fetch_user_state(7).unwrap().unwrap();
    assert_eq!(read, stored);
    assert_eq!(read.current_model, "GigaChat-2-Max");
    assert_eq!(read.scheduled_time, None);
    engine.set_store_reachable(false);
    assert_eq!(engine.get_user_state(7, later + TTL - 1), stored);
}

#[test]
fn a_read_of_an_unknown_user_caches_the_empty_state() {
    let mut engine = BotState::new(Database::new());
    assert_eq!(engine.get_user_state(7, NOW), UserState::default());
    assert_eq!(engine.cached_entries(), 1);
    assert_eq!(engine.database().fetch_user_state(7), Ok(None));
}

#[test]
fn a_read_from_an_unreachable_store_fails_open() {
    let mut engine = BotState::new(Database::new());
    engine.save_user_state(7, state_with_model("GigaChat-2-Max"), NOW).unwrap();
    engine.set_store_reachable(false);
    assert_eq!(engine.get_user_state(7, NOW + TTL), UserState::default());
    assert_eq!(engine.get_user_state(8, NOW), UserState::default());
    assert_eq!(engine.cached_entries(), 1);
    engine.set_store_reachable(true);
    assert_eq!(engine.get_user_state(7, NOW + TTL), state_with_model("GigaChat-2-Max"));
}

#[test]
fn a_write_to_an_unreachable_store_fails_closed() {
    let mut engine = BotState::new(Database::new());
    engine.save_user_state(7, state_with_model("old"), NOW).unwrap();
    engine.set_store_reachable(false);
    assert_eq!(engine.save_user_state(7, state_with_model("new"), NOW + 1), Err(unreachable()));
    assert_eq!(engine.get_user_state(7, NOW + 2), state_with_model("old"));
    engine.set_store_reachable(true);
    assert_eq!(engine.database().fetch_user_state(7), Ok(Some(state_with_model("old"))));
}

#[test]
fn a_state_with_too_large_a_history_is_not_saved() {
    let mut engine = BotState::new(Database::new());
    let small = state_with_model("GigaChat-2-Max");
    engine.save_user_state(7, small.clone(), NOW).unwrap();

    let mut large = small.clone();
    large.conversation_history = vec![b'x'; 5 * 1024 + 1];
    assert_eq!(engine.save_user_state(7, large.clone(), NOW + 1), Err(BotStateError::DataTooLarge(5121)));
    assert_eq!(engine.database().fetch_user_state(7), Ok(Some(small.clone())));
    assert_eq!(engine.get_user_state(7, NOW + 2), small);
    assert_eq!(engine.get_user_state(7, NOW + TTL), small);

    large.conversation_history.pop();
    assert_eq!(engine.save_user_state(7, large.clone(), NOW + TTL + 1), Ok(()));
    assert_eq!(engine.database().fetch_user_state(7), Ok(Some(large)));
}

#[test]
fn a_state_with_too_large_temperatures_is_not_saved() {
    let mut engine = BotState::new(Database::new());
    let mut state = UserState::default();
    state.user_temperatures = vec![b'x'; 1025];
    assert_eq!(engine.save_user_state(7, state, NOW), Err(BotStateError::DataTooLarge(1025)));
    assert_eq!(engine.database().fetch_user_state(7), Ok(None));
    assert_eq!(engine.cached_entries(), 0);
}

#[test]
fn the_size_is_checked_before_the_store_is_asked() {
    let mut engine = BotState::new(Database::new());
    engine.set_store_reachable(false);
    let mut state = UserState::default();
    state.conversation_history = vec![b'x'; 9000];
    assert_eq!(engine.save_user_state(7, state, NOW), Err(BotStateError::DataTooLarge(9000)));
}

#[test]
fn all_user_states_are_those_of_the_store() {
    let mut engine = BotState::new(Database::new());
    assert!(engine.get_all_user_states().is_empty());
    engine.save_user_state(7, state_with_model("a"), NOW).unwrap();
    engine.save_user_state(8, state_with_model("b"), NOW).unwrap();
    engine.get_user_state(9, NOW);
    let rows = engine.get_all_user_states();
    assert_eq!(rows.len(), 2);
    assert_eq!((rows[0].chat_id, rows[0].state.clone()), (7, state_with_model("a")));
    assert_eq!((rows[1].chat_id, rows[1].state.clone()), (8, state_with_model("b")));
    engine.set_store_reachable(false);
    assert!(engine.get_all_user_states().is_empty());
}

#[test]
fn errors_are_put_into_words() {
    assert_eq!(BotStateError::DatabaseError("down".to_string()).message(), "Database error: down");
    assert_eq!(BotStateError::SerializationError("eof".to_string()).message(), "Serialization error: eof");
    assert_eq!(BotStateError::DataTooLarge(5121).message(), "Data too large: 5121 bytes");
    assert_eq!(BotStateError::SlotTaken.message(), "Slot taken");
    assert_eq!(BotStateError::NotFound.message(), "Not found");
    assert_eq!(BotStateError::CannotCancel.message(), "Cannot cancel");
    assert_eq!(BotStateError::DataTooLarge(0).clone(), BotStateError::DataTooLarge(0));
}
