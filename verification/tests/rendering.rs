use mensa_bot::commands::{canteen_choices, day_choices, resolve_request};
use mensa_bot::date::{Date, Time};
use mensa_bot::menu::{Canteen, CanteenData, Classifier, Line, Meal};
use mensa_bot::render::{
    build_embed, correction_notice, emojiy_classifier, format_line, no_menu_message,
    render_menu_response, weekday_to_string,
};
use mensa_bot::date::Weekday;
use mensa_bot::resolver::DayCorrection;

fn meal(name: &str, price: &str, classifiers: Vec<Classifier>) -> Meal {
    Meal { name: name.to_string(), price: price.to_string(), classifiers, additives: Vec::new() }
}

fn line(name: &str, meals: Vec<Meal>) -> Line {
    Line { id: None, name: name.to_string(), meals }
}

#[test]
fn emoji_takes_the_lowest_ranked_classifier() {
    // Beef sorts before Vegan, so the beef emoji wins and only one is shown.
    assert_eq!(emojiy_classifier(&vec![Classifier::Vegan, Classifier::Beef]), "🐄");
    assert_eq!(emojiy_classifier(&vec![Classifier::Beef, Classifier::Vegan]), "🐄");
}

#[test]
fn emoji_per_classifier() {
    assert_eq!(emojiy_classifier(&vec![Classifier::Pork]), "🐖");
    assert_eq!(emojiy_classifier(&vec![Classifier::OrganicPork]), "🐖");
    assert_eq!(emojiy_classifier(&vec![Classifier::OrganicBeef]), "🐄");
    assert_eq!(emojiy_classifier(&vec![Classifier::Gelatine]), "🐈");
    assert_eq!(emojiy_classifier(&vec![Classifier::Fish]), "🐟");
    assert_eq!(emojiy_classifier(&vec![Classifier::Vegetarian]), "🥕");
    assert_eq!(emojiy_classifier(&vec![Classifier::Vegan]), "🌱");
    assert_eq!(emojiy_classifier(&vec![Classifier::MensaVital]), "🥦");
    assert_eq!(emojiy_classifier(&vec![Classifier::AnimalRennet]), "");
    assert_eq!(emojiy_classifier(&Vec::new()), "");
}

#[test]
fn format_line_renders_priced_meals() {
    let l = line(
        "Linie 1",
        vec![
            meal("Gulasch", "3,50€", vec![Classifier::Beef]),
            meal("Salat", "1,20€", vec![Classifier::Vegan]),
        ],
    );
    assert_eq!(format_line(&l), "🐄Gulasch (3,50€)\n🌱Salat (1,20€)");
}

#[test]
fn format_line_excludes_unpriced_meals() {
    let l = line(
        "Linie 2",
        vec![
            meal("Beilage", "", vec![Classifier::Vegan]),
            meal("Eintopf", "2,80€", vec![]),
        ],
    );
    assert_eq!(format_line(&l), "Eintopf (2,80€)");
}

#[test]
fn line_with_only_unpriced_meals_renders_empty_and_is_omitted() {
    let empty_after_filter = line("Linie 3", vec![meal("Wasser", "", vec![])]);
    assert_eq!(format_line(&empty_after_filter), "");

    let canteen = CanteenData {
        date: Date { year: 2024, month: 1, day: 5 },
        canteen: Canteen { id: "mensa_adenauerring".to_string(), name: "KIT Campus".to_string() },
        lines: vec![
            empty_after_filter,
            line("Linie 4", vec![meal("Eintopf", "2,80€", vec![])]),
            line("Leer", Vec::new()),
        ],
    };
    let embed = build_embed(&canteen);
    assert_eq!(embed.fields.len(), 1);
    assert_eq!(embed.fields[0].name, "Linie 4");
    assert_eq!(embed.fields[0].value, "Eintopf (2,80€)");
    assert!(embed.fields[0].inline);
}

#[test]
fn weekday_names_cover_the_work_week() {
    assert_eq!(weekday_to_string(Weekday::Monday), "Montag");
    assert_eq!(weekday_to_string(Weekday::Friday), "Freitag");
    assert_eq!(weekday_to_string(Weekday::Saturday), "Unbekannt");
    assert_eq!(weekday_to_string(Weekday::Sunday), "Unbekannt");
}

#[test]
fn notices_name_the_correction() {
    assert_eq!(correction_notice(&DayCorrection::Same), None);
    assert_eq!(
        correction_notice(&DayCorrection::RollOver),
        Some("Die Mensa ist geschlossen. Ich habe dir den nächsten Tag ausgewählt.")
    );
    assert_eq!(
        correction_notice(&DayCorrection::DaysSkipped),
        Some("An dem ausgewählten Tag ist die Mensa geschlossen. Ich habe dir den nächsten Tag ausgewählt.")
    );
    assert_eq!(no_menu_message(), "No menu available.");
}

#[test]
fn full_friday_request_renders_without_notice() {
    // Wednesday morning, asking for Friday; Friday the 5th has data.
    let now = Date { year: 2024, month: 1, day: 3 };
    let now_time = Time { hour: 10, minute: 0 };
    let roll_over = Time { hour: 20, minute: 0 };
    let avail = vec![
        Date { year: 2024, month: 1, day: 5 },
        Date { year: 2024, month: 1, day: 8 },
    ];
    let (selected, correction) =
        resolve_request(Some("friday"), now, now_time, roll_over, &avail).unwrap();
    let selected = selected.unwrap();
    assert_eq!(selected, Date { year: 2024, month: 1, day: 5 });
    assert_eq!(correction, DayCorrection::Same);

    let canteen = CanteenData {
        date: selected,
        canteen: Canteen { id: "mensa_adenauerring".to_string(), name: "KIT Campus".to_string() },
        lines: vec![line("Linie 1", vec![meal("Gulasch", "3,50€", vec![Classifier::Beef])])],
    };
    let message = render_menu_response(&canteen, &correction);
    assert_eq!(message.content, None);
    assert_eq!(message.embed.title, "Mensaeinheitsbrei für KIT Campus am Freitag");
    assert_eq!(message.embed.color, 0x6f00ff);
    assert_eq!(message.embed.fields.len(), 1);
    assert_eq!(message.embed.fields[0].name, "Linie 1");
    assert_eq!(message.embed.fields[0].value, "🐄Gulasch (3,50€)");
}

#[test]
fn roll_over_response_carries_the_notice() {
    let canteen = CanteenData {
        date: Date { year: 2024, month: 1, day: 4 },
        canteen: Canteen { id: "mensa_moltke".to_string(), name: "Moltke".to_string() },
        lines: vec![line("Linie 1", vec![meal("Suppe", "1,00€", vec![])])],
    };
    let message = render_menu_response(&canteen, &DayCorrection::RollOver);
    assert_eq!(
        message.content.as_deref(),
        Some("Die Mensa ist geschlossen. Ich habe dir den nächsten Tag ausgewählt.")
    );
    assert_eq!(message.embed.title, "Mensaeinheitsbrei für Moltke am Donnerstag");
}

#[test]
fn command_schema_choices() {
    let days = day_choices();
    assert_eq!(days.len(), 8);
    assert_eq!(days[0], ("Heute", "today"));
    assert_eq!(days[7], ("Freitag", "friday"));
    let canteens = canteen_choices();
    assert_eq!(canteens.len(), 7);
    assert_eq!(canteens[0], ("KIT Campus", "mensa_adenauerring"));
    assert_eq!(canteens[6], ("Holzgarten", "mensa_holzgarten"));
}
