//! Rendering of a resolved menu into a structured message: a notice naming
//! the correction, a title with the localized weekday, and one titled
//! section per serving line that still has priced meals.

use vstd::prelude::*;
use vstd::string::*;

use crate::date::{weekday_of, Weekday};
use crate::menu::{CanteenData, Classifier, Line, Meal};
use crate::resolver::DayCorrection;

verus! {

/// Presentation rank of a classifier; the lowest-ranked tag of a meal
/// decides its leading emoji.
pub open spec fn classifier_rank(c: Classifier) -> int {
    match c {
        Classifier::Pork => 0,
        Classifier::OrganicPork => 1,
        Classifier::Beef => 2,
        Classifier::OrganicBeef => 3,
        Classifier::Gelatine => 4,
        Classifier::Fish => 5,
        Classifier::AnimalRennet => 6,
        Classifier::Vegetarian => 7,
        Classifier::Vegan => 8,
        Classifier::MensaVital => 9,
    }
}

/// The emoji shown for a classifier; tags without one render as nothing.
pub open spec fn classifier_emoji(c: Classifier) -> Seq<char> {
    match c {
        Classifier::Pork | Classifier::OrganicPork => "🐖"@,
        Classifier::Beef | Classifier::OrganicBeef => "🐄"@,
        Classifier::Gelatine => "🐈"@,
        Classifier::Fish => "🐟"@,
        Classifier::Vegetarian => "🥕"@,
        Classifier::MensaVital => "🥦"@,
        Classifier::Vegan => "🌱"@,
        Classifier::AnimalRennet => ""@,
    }
}

/// The lowest-ranked classifier in a list; on equal rank the earlier entry
/// wins (equal rank means the same tag).
pub open spec fn min_classifier(s: Seq<Classifier>) -> Classifier
    decreases s.len(),
{
    if s.len() <= 1 {
        s[0]
    } else {
        let m = min_classifier(s.drop_last());
        if classifier_rank(s.last()) < classifier_rank(m) {
            s.last()
        } else {
            m
        }
    }
}

/// The single leading emoji for a meal's tag list: that of its
/// lowest-ranked classifier, or nothing for an untagged meal.
pub open spec fn emoji_for_list(s: Seq<Classifier>) -> Seq<char> {
    if s.len() == 0 {
        ""@
    } else {
        classifier_emoji(min_classifier(s))
    }
}

fn classifier_rank_of(c: &Classifier) -> (r: u32)
    ensures
        r == classifier_rank(*c),
{
    match c {
        Classifier::Pork => 0,
        Classifier::OrganicPork => 1,
        Classifier::Beef => 2,
        Classifier::OrganicBeef => 3,
        Classifier::Gelatine => 4,
        Classifier::Fish => 5,
        Classifier::AnimalRennet => 6,
        Classifier::Vegetarian => 7,
        Classifier::Vegan => 8,
        Classifier::MensaVital => 9,
    }
}

/// The single emoji a meal with these classifiers is rendered with.
pub fn emojiy_classifier(classifiers: &Vec<Classifier>) -> (r: &'static str)
    ensures
        r@ == emoji_for_list(classifiers@),
{
    if classifiers.len() == 0 {
        return "";
    }
    let mut best: Classifier = classifiers[0];
    let mut i: usize = 1;
    while i < classifiers.len()
        invariant
            1 <= i <= classifiers@.len(),
            best == min_classifier(classifiers@.take(i as int)),
        decreases classifiers@.len() - i,
    {
        let c = classifiers[i];
        proof {
            assert(classifiers@.take(i as int + 1).drop_last() =~= classifiers@.take(i as int));
            assert(classifiers@.take(i as int + 1).last() == classifiers@[i as int]);
        }
        if classifier_rank_of(&c) < classifier_rank_of(&best) {
            best = c;
        }
        i = i + 1;
    }
    proof {
        assert(classifiers@.take(classifiers@.len() as int) =~= classifiers@);
    }
    match best {
        Classifier::Pork | Classifier::OrganicPork => "🐖",
        Classifier::Beef | Classifier::OrganicBeef => "🐄",
        Classifier::Gelatine => "🐈",
        Classifier::Fish => "🐟",
        Classifier::Vegetarian => "🥕",
        Classifier::MensaVital => "🥦",
        Classifier::Vegan => "🌱",
        Classifier::AnimalRennet => "",
    }
}

/// The text one priced meal renders to: leading emoji, name, price in
/// parentheses.
pub open spec fn meal_text(m: Meal) -> Seq<char> {
    emoji_for_list(m.classifiers@) + m.name@ + " ("@ + m.price@ + ")"@
}

/// Whether any meal in the list carries a (non-empty) price.
pub open spec fn has_priced(meals: Seq<Meal>) -> bool
    decreases meals.len(),
{
    if meals.len() == 0 {
        false
    } else {
        has_priced(meals.drop_last()) || meals.last().price@.len() != 0
    }
}

/// The text a serving line renders to: its priced meals, one per text
/// line; unpriced meals are left out.
pub open spec fn line_text(meals: Seq<Meal>) -> Seq<char>
    decreases meals.len(),
{
    if meals.len() == 0 {
        Seq::<char>::empty()
    } else {
        let rest = line_text(meals.drop_last());
        let m = meals.last();
        if m.price@.len() == 0 {
            rest
        } else if has_priced(meals.drop_last()) {
            rest + "\n"@ + meal_text(m)
        } else {
            meal_text(m)
        }
    }
}

/// Render one serving line: its priced meals joined by newlines.
pub fn format_line(line: &Line) -> (r: String)
    ensures
        r@ == line_text(line.meals@),
{
    let mut s = String::new();
    let mut any: bool = false;
    let mut i: usize = 0;
    while i < line.meals.len()
        invariant
            i <= line.meals@.len(),
            s@ == line_text(line.meals@.take(i as int)),
            any == has_priced(line.meals@.take(i as int)),
        decreases line.meals@.len() - i,
    {
        let meal = &line.meals[i];
        proof {
            assert(line.meals@.take(i as int + 1).drop_last() =~= line.meals@.take(i as int));
            assert(line.meals@.take(i as int + 1).last() == line.meals@[i as int]);
            lemma_line_text_empty(line.meals@.take(i as int));
        }
        if meal.price.as_str().unicode_len() != 0 {
            if any {
                s.append("\n");
            }
            s.append(emojiy_classifier(&meal.classifiers));
            s.append(meal.name.as_str());
            s.append(" (");
            s.append(meal.price.as_str());
            s.append(")");
            any = true;
            proof {
                assert(s@ =~= line_text(line.meals@.take(i as int + 1)));
            }
        }
        i = i + 1;
    }
    proof {
        assert(line.meals@.take(line.meals@.len() as int) =~= line.meals@);
    }
    s
}

/// A line renders to no text exactly when none of its meals is priced.
pub proof fn lemma_line_text_empty(meals: Seq<Meal>)
    ensures
        (line_text(meals).len() == 0) <==> !has_priced(meals),
    decreases meals.len(),
{
    reveal_strlit(" (");
    if meals.len() > 0 {
        lemma_line_text_empty(meals.drop_last());
    }
}

/// A meal without a price is invisible: wherever it stands in a line, the
/// rendered text is that of the line without it, and it does not make the
/// line count as priced.
pub proof fn lemma_unpriced_meal_invisible(before: Seq<Meal>, m: Meal, after: Seq<Meal>)
    requires
        m.price@.len() == 0,
    ensures
        line_text(before + seq![m] + after) == line_text(before + after),
        has_priced(before + seq![m] + after) == has_priced(before + after),
    decreases after.len(),
{
    if after.len() == 0 {
        assert(before + seq![m] + after =~= before.push(m));
        assert(before + after =~= before);
        assert(before.push(m).drop_last() =~= before);
        assert(before.push(m).last() == m);
    } else {
        assert((before + seq![m] + after).drop_last() =~= before + seq![m] + after.drop_last());
        assert((before + after).drop_last() =~= before + after.drop_last());
        assert((before + seq![m] + after).last() == after.last());
        assert((before + after).last() == after.last());
        lemma_unpriced_meal_invisible(before, m, after.drop_last());
    }
}

/// A line left without priced meals contributes no section at all.
pub proof fn lemma_filtered_empty_line_omitted(lines: Seq<Line>, l: Line)
    requires
        !has_priced(l.meals@),
    ensures
        embed_fields(lines.push(l)) == embed_fields(lines),
{
    assert(lines.push(l).drop_last() =~= lines);
    assert(lines.push(l).last() == l);
}

/// The localized name of a weekday; the menu covers weekdays only, so the
/// weekend renders as a defensive default.
pub open spec fn weekday_name(w: Weekday) -> Seq<char> {
    match w {
        Weekday::Monday => "Montag"@,
        Weekday::Tuesday => "Dienstag"@,
        Weekday::Wednesday => "Mittwoch"@,
        Weekday::Thursday => "Donnerstag"@,
        Weekday::Friday => "Freitag"@,
        Weekday::Saturday | Weekday::Sunday => "Unbekannt"@,
    }
}

/// The localized name shown for a weekday.
pub fn weekday_to_string(weekday: Weekday) -> (r: &'static str)
    ensures
        r@ == weekday_name(weekday),
{
    match weekday {
        Weekday::Monday => "Montag",
        Weekday::Tuesday => "Dienstag",
        Weekday::Wednesday => "Mittwoch",
        Weekday::Thursday => "Donnerstag",
        Weekday::Friday => "Freitag",
        Weekday::Saturday | Weekday::Sunday => "Unbekannt",
    }
}

/// One titled section of the rendered message.
pub struct EmbedField {
    pub name: String,
    pub value: String,
    pub inline: bool,
}

/// The structured body of the rendered message.
pub struct Embed {
    pub title: String,
    pub color: u32,
    pub footer: String,
    pub fields: Vec<EmbedField>,
}

/// The message title for one canteen's day.
pub open spec fn embed_title(c: CanteenData) -> Seq<char> {
    "Mensaeinheitsbrei für "@ + c.canteen.name@ + " am "@ + weekday_name(weekday_of(c.date))
}

/// The titled sections of the message: one per serving line that still has
/// a priced meal, in order; lines empty after price filtering are omitted.
pub open spec fn embed_fields(lines: Seq<Line>) -> Seq<(Seq<char>, Seq<char>)>
    decreases lines.len(),
{
    if lines.len() == 0 {
        Seq::empty()
    } else {
        let rest = embed_fields(lines.drop_last());
        let l = lines.last();
        if has_priced(l.meals@) {
            rest.push((l.name@, line_text(l.meals@)))
        } else {
            rest
        }
    }
}

/// Render one canteen's day into the message body.
pub fn build_embed(canteen: &CanteenData) -> (r: Embed)
    requires
        canteen.date.valid(),
    ensures
        r.title@ == embed_title(*canteen),
        r.color == 0x6f00ff,
        r.footer@ == "Klick auf mein Profilbild und lad mich zu deinem Server ein!"@,
        r.fields@.map_values(|f: EmbedField| (f.name@, f.value@)) == embed_fields(canteen.lines@),
        forall|i: int| 0 <= i < r.fields@.len() ==> (#[trigger] r.fields@[i]).inline,
{
    let mut title = String::from_str("Mensaeinheitsbrei für ");
    title.append(canteen.canteen.name.as_str());
    title.append(" am ");
    title.append(weekday_to_string(canteen.date.weekday()));
    proof {
        assert(title@ =~= embed_title(*canteen));
    }
    let mut fields: Vec<EmbedField> = Vec::new();
    let mut i: usize = 0;
    while i < canteen.lines.len()
        invariant
            i <= canteen.lines@.len(),
            fields@.map_values(|f: EmbedField| (f.name@, f.value@)) == embed_fields(
                canteen.lines@.take(i as int),
            ),
            forall|j: int| 0 <= j < fields@.len() ==> (#[trigger] fields@[j]).inline,
        decreases canteen.lines@.len() - i,
    {
        let line = &canteen.lines[i];
        proof {
            assert(canteen.lines@.take(i as int + 1).drop_last() =~= canteen.lines@.take(i as int));
            assert(canteen.lines@.take(i as int + 1).last() == canteen.lines@[i as int]);
            lemma_line_text_empty(line.meals@);
        }
        let value = format_line(line);
        if value.as_str().unicode_len() != 0 {
            let ghost old_fields = fields@;
            fields.push(EmbedField { name: line.name.clone(), value, inline: true });
            proof {
                assert(fields@.map_values(|f: EmbedField| (f.name@, f.value@)) =~= old_fields
                    .map_values(|f: EmbedField| (f.name@, f.value@)).push(
                    (line.name@, line_text(line.meals@)),
                ));
            }
        }
        i = i + 1;
    }
    proof {
        assert(canteen.lines@.take(canteen.lines@.len() as int) =~= canteen.lines@);
    }
    Embed {
        title,
        color: 0x6f00ff,
        footer: String::from_str("Klick auf mein Profilbild und lad mich zu deinem Server ein!"),
        fields,
    }
}

/// The notice naming a correction; no correction, no notice.
pub open spec fn notice_text(c: DayCorrection) -> Option<Seq<char>> {
    match c {
        DayCorrection::Same => None,
        DayCorrection::RollOver => Some(
            "Die Mensa ist geschlossen. Ich habe dir den nächsten Tag ausgewählt."@,
        ),
        DayCorrection::DaysSkipped => Some(
            "An dem ausgewählten Tag ist die Mensa geschlossen. Ich habe dir den nächsten Tag ausgewählt."@,
        ),
    }
}

/// The notice line shown above the menu for a correction, if any.
pub fn correction_notice(c: &DayCorrection) -> (r: Option<&'static str>)
    ensures
        r is Some <==> notice_text(*c) is Some,
        r matches Some(s) ==> notice_text(*c) == Some(s@),
{
    match c {
        DayCorrection::Same => None,
        DayCorrection::RollOver => Some(
            "Die Mensa ist geschlossen. Ich habe dir den nächsten Tag ausgewählt.",
        ),
        DayCorrection::DaysSkipped => Some(
            "An dem ausgewählten Tag ist die Mensa geschlossen. Ich habe dir den nächsten Tag ausgewählt.",
        ),
    }
}

/// The reply sent when no available day could be selected.
pub fn no_menu_message() -> (r: &'static str)
    ensures
        r@ == "No menu available."@,
{
    "No menu available."
}

/// One complete reply to a menu command: the optional correction notice
/// and the rendered menu body.
pub struct MenuMessage {
    pub content: Option<String>,
    pub embed: Embed,
}

/// Render the selected day's menu together with the correction notice.
pub fn render_menu_response(canteen: &CanteenData, correction: &DayCorrection) -> (r: MenuMessage)
    requires
        canteen.date.valid(),
    ensures
        r.content is Some <==> notice_text(*correction) is Some,
        r.content matches Some(s) ==> notice_text(*correction) == Some(s@),
        r.embed.title@ == embed_title(*canteen),
        r.embed.color == 0x6f00ff,
        r.embed.footer@ == "Klick auf mein Profilbild und lad mich zu deinem Server ein!"@,
        r.embed.fields@.map_values(|f: EmbedField| (f.name@, f.value@)) == embed_fields(
            canteen.lines@,
        ),
        forall|i: int| 0 <= i < r.embed.fields@.len() ==> (#[trigger] r.embed.fields@[i]).inline,
{
    let content: Option<String> = match correction_notice(correction) {
        Some(s) => Some(String::from_str(s)),
        None => None,
    };
    MenuMessage { content, embed: build_embed(canteen) }
}

} // verus!
