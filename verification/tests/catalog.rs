use listener_bot::error::BotStateError;
use listener_bot::models::ai_assistants::AIAssistant;
use listener_bot::models::ai_assistants::Resolution;
use listener_bot::models::ai_assistants::DEFAULT_PRICE_PER_MINUTE;
use listener_bot::models::time_slot::TimeSlot;

fn persona(id: i32, name: &str, model: &str, price: u32) -> AIAssistant {
    AIAssistant {
        id,
        name: name.to_string(),
        prompt: format!("You are {}.", name),
        model: model.to_string(),
        description: "d".to_string(),
        specialty: "s".to_string(),
        greeting: "g".to_string(),
        price_per_minute: price,
    }
}

fn catalog() -> Vec<AIAssistant> {
    vec![
        persona(1, "Анна", "GigaChat-2-Max", 10),
        persona(2, "Максим", "GigaChat-2-Pro", 9),
        persona(3, "София", "deepseek-chat", 8),
        persona(4, "Shadow", "GigaChat-2-Pro", 1),
    ]
}

fn slot(id: i32, minutes: i32) -> TimeSlot {
    TimeSlot { id, duration_minutes: minutes, description: "d".to_string(), is_active: true, sort_order: id }
}

#[test]
fn the_designated_persona_is_anna() {
    let anna = AIAssistant::designated();
    assert_eq!(anna.id, 1);
    assert_eq!(anna.name, "Анна");
    assert_eq!(anna.model, "GigaChat-2-Max");
    assert_eq!(anna.description, "Интерактивный помощник");
    assert_eq!(anna.specialty, "Общение и поддержка");
    assert_eq!(anna.greeting, "Здравствуйте!");
    assert_eq!(anna.prompt, "Ты помощник.");
    assert_eq!(anna.price_per_minute, 10);
    assert_eq!(DEFAULT_PRICE_PER_MINUTE, 10);
}

#[test]
fn a_catalog_that_cannot_be_read_is_the_standard_persona_alone() {
    let read = AIAssistant::get_all_assistants(Ok(catalog()));
    assert_eq!(read, catalog());
    assert_eq!(AIAssistant::get_all_assistants(Ok(vec![])), vec![]);
    let fallback = AIAssistant::get_all_assistants(Err(BotStateError::DatabaseError("down".to_string())));
    assert_eq!(fallback, vec![AIAssistant::standard()]);
    assert_eq!(fallback[0].name, "Анна");
    assert_eq!(fallback[0].specialty, "Общение и поддержка в повседневных задачах");
    assert!(fallback[0].prompt.starts_with("Ты — Анна, виртуальный помощник"));
    assert!(fallback[0].greeting.ends_with("Расскажите, что вас интересует?"));
}

#[test]
fn a_persona_is_found_by_model_and_by_identifier() {
    let catalog = catalog();
    assert_eq!(AIAssistant::find_by_model(&catalog, "deepseek-chat"), Some(catalog[2].clone()));
    assert_eq!(AIAssistant::find_by_model_with_price(&catalog, "GigaChat-2-Pro"), Some(catalog[1].clone()));
    assert_eq!(AIAssistant::find_by_model(&catalog, "gigachat-2-pro"), None);
    assert_eq!(AIAssistant::find_by_model(&catalog, ""), None);
    assert_eq!(AIAssistant::find_by_id(&catalog, 4), Some(catalog[3].clone()));
    assert_eq!(AIAssistant::find_by_id_with_price(&catalog, 1), Some(catalog[0].clone()));
    assert_eq!(AIAssistant::find_by_id(&catalog, 0), None);
    assert_eq!(AIAssistant::find_by_id(&vec![], 1), None);
}

#[test]
fn a_persona_that_is_not_found_is_replaced() {
    let catalog = catalog();
    let found = AIAssistant::resolve(Some(catalog[2].clone()), &catalog);
    assert_eq!((found.assistant, found.resolution), (catalog[2].clone(), Resolution::Found));
    let first = AIAssistant::resolve(None, &catalog);
    assert_eq!((first.assistant, first.resolution), (catalog[0].clone(), Resolution::FirstOfCatalog));
    let designated = AIAssistant::resolve(None, &vec![]);
    assert_eq!((designated.assistant, designated.resolution), (AIAssistant::designated(), Resolution::Designated));
    let kept = AIAssistant::resolve(Some(catalog[1].clone()), &vec![]);
    assert_eq!(kept.resolution, Resolution::Found);
}

#[test]
fn the_price_of_a_minute_defaults_to_ten_stars() {
    let catalog = catalog();
    assert_eq!(AIAssistant::get_consultant_price(&catalog, "deepseek-chat"), 8);
    assert_eq!(AIAssistant::get_consultant_price(&catalog, "GigaChat-2-Pro"), 9);
    assert_eq!(AIAssistant::get_consultant_price(&catalog, "unknown"), 10);
}

#[test]
fn the_price_of_a_session_is_minutes_times_the_price_of_a_minute() {
    let anna = persona(1, "Анна", "m", 10);
    assert_eq!(anna.calculate_price(30), (300, 3_000_000_000));
    assert_eq!(anna.calculate_price(0), (0, 0));
    assert_eq!(anna.calculate_price(42), (420, 4_200_000_000));
    assert_eq!(anna.calculate_price(43), (430, u32::MAX));
    let dear = persona(2, "x", "m", u32::MAX);
    assert_eq!(dear.calculate_price(u32::MAX), (18_446_744_065_119_617_025, u32::MAX));
    let cheap = persona(3, "y", "m", 1);
    assert_eq!(cheap.calculate_price(429), (429, 4_290_000_000));
}

#[test]
fn an_update_replaces_the_persona_with_the_identifier_or_adds_one() {
    let mut catalog = catalog();
    let changed = persona(2, "Max", "GigaChat-2-Pro", 12);
    AIAssistant::update_assistant(&mut catalog, &changed);
    assert_eq!(catalog.len(), 4);
    assert_eq!(catalog[1], changed);
    let added = persona(9, "New", "new-model", 5);
    AIAssistant::update_assistant(&mut catalog, &added);
    assert_eq!(catalog.len(), 5);
    assert_eq!(catalog[4], added);
    assert_eq!(catalog[0].name, "Анна");
}

#[test]
fn a_deactivated_persona_leaves_the_catalog() {
    let mut catalog = catalog();
    catalog.push(persona(2, "Twin", "twin", 3));
    AIAssistant::deactivate_assistant(&mut catalog, 2);
    assert_eq!(catalog.iter().map(|a| a.id).collect::<Vec<i32>>(), vec![1, 3, 4]);
    AIAssistant::deactivate_assistant(&mut catalog, 2);
    assert_eq!(catalog.len(), 3);
    AIAssistant::deactivate_assistant(&mut catalog, 1);
    AIAssistant::deactivate_assistant(&mut catalog, 3);
    AIAssistant::deactivate_assistant(&mut catalog, 4);
    assert!(catalog.is_empty());
}

#[test]
fn slots_that_cannot_be_read_are_the_standard_slot_alone() {
    let slots = vec![slot(1, 15), slot(2, 30)];
    assert_eq!(TimeSlot::get_all_active_slots(Ok(slots.clone())), slots);
    let fallback = TimeSlot::get_all_active_slots(Err(BotStateError::DatabaseError("down".to_string())));
    assert_eq!(
        fallback,
        vec![TimeSlot {
            id: 1,
            duration_minutes: 30,
            description: "Стандартная сессия".to_string(),
            is_active: true,
            sort_order: 1,
        }]
    );
    assert_eq!(fallback[0], TimeSlot::standard());
}

#[test]
fn a_slot_is_selected_by_identifier_or_the_first_is_taken() {
    let slots = vec![slot(5, 15), slot(6, 30), slot(6, 45)];
    assert_eq!(TimeSlot::select(&slots, 6), &slots[1]);
    assert_eq!(TimeSlot::select(&slots, 5), &slots[0]);
    assert_eq!(TimeSlot::select(&slots, 0), &slots[0]);
    assert_eq!(TimeSlot::select(&slots, 7), &slots[0]);
}

#[test]
fn the_price_of_a_slot_is_its_minutes_times_the_price_of_a_minute() {
    assert_eq!(slot(1, 30).calculate_price(10), 300);
    assert_eq!(slot(1, 0).calculate_price(10), 0);
    assert_eq!(slot(1, -5).calculate_price(10), -50);
    assert_eq!(slot(1, i32::MAX).calculate_price(u32::MAX), 9_223_372_030_412_324_865);
    assert_eq!(slot(1, i32::MIN).calculate_price(u32::MAX), -9_223_372_034_707_292_160);
}

#[test]
fn a_slot_is_labelled_with_its_length_and_price() {
    assert_eq!(slot(1, 30).format_price(10), "30 мин - 300 Stars");
    assert_eq!(slot(1, 15).format_price(0), "15 мин - 0 Stars");
    assert_eq!(slot(1, -5).format_price(10), "-5 мин - -50 Stars");
    assert_eq!(slot(1, i32::MAX).format_price(2), "2147483647 мин - 2147483647 Stars");
    assert_eq!(slot(1, i32::MIN).format_price(2), "-2147483648 мин - -2147483648 Stars");
}
