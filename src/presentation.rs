use vstd::prelude::*;
use crate::fighter::{Allegiance, FighterInstance};

verus! {

/// The kinds of on-screen element that make up one fighter's display.
#[derive(Clone, Copy, Debug, PartialEq, Eq, Structural)]
pub enum ElementKind {
    Sprite,
    Name,
    Level,
    HealthLabel,
    HealthBar,
    HealthNumber,
}

/// The screen half in which a fighter sprite is drawn.
#[derive(Clone, Copy, Debug, PartialEq, Eq, Structural)]
pub enum ScreenSide {
    Left,
    Right,
}

/// Where an element is drawn. Offsets are in tenths of a pixel.
#[derive(Clone, Copy, Debug, PartialEq, Eq, Structural)]
pub enum Placement {
    /// A text block placed by its distance from the window's top-left corner.
    FromTopLeft { left: u32, top: u32 },
    /// A text block placed by its distance from the window's bottom-right corner.
    FromBottomRight { right: u32, bottom: u32 },
    /// A shape centred at this point of the world, the origin being the window's centre.
    Centred { x: i32, y: i32 },
    /// The fixed sprite slot of one half of the screen.
    SpriteSlot { half: ScreenSide },
}

/// Width of a health bar, in tenths of a pixel.
pub const HEALTH_BAR_WIDTH: u32 = 1682;

/// Height of a health bar, in tenths of a pixel.
pub const HEALTH_BAR_HEIGHT: u32 = 107;

/// One positioned element of a fighter's display. `content` holds the text of a
/// label, the asset path of a sprite, and nothing for a health bar.
pub struct VisualElement {
    pub kind: ElementKind,
    pub side: Allegiance,
    pub content: String,
    pub placement: Placement,
}

impl View for VisualElement {
    type V = (ElementKind, Allegiance, Seq<char>, Placement);

    open spec fn view(&self) -> Self::V {
        (self.kind, self.side, self.content@, self.placement)
    }
}

/// The fixed layout table: where each kind of element goes for each side, or
/// `None` where the side shows no such element.
pub open spec fn layout_of(kind: ElementKind, side: Allegiance) -> Option<Placement> {
    match (kind, side) {
        (ElementKind::Sprite, Allegiance::Ally) => Some(Placement::SpriteSlot { half: ScreenSide::Right }),
        (ElementKind::Sprite, Allegiance::Enemy) => Some(Placement::SpriteSlot { half: ScreenSide::Left }),
        (ElementKind::Name, Allegiance::Ally) => Some(Placement::FromTopLeft { left: 300, top: 50 }),
        (ElementKind::Name, Allegiance::Enemy) => Some(Placement::FromBottomRight { right: 430, bottom: 1900 }),
        (ElementKind::Level, Allegiance::Ally) => Some(Placement::FromTopLeft { left: 1000, top: 400 }),
        (ElementKind::Level, Allegiance::Enemy) => Some(Placement::FromBottomRight { right: 700, bottom: 1650 }),
        (ElementKind::HealthLabel, Allegiance::Ally) => Some(Placement::FromTopLeft { left: 220, top: 750 }),
        (ElementKind::HealthLabel, Allegiance::Enemy) => Some(Placement::FromBottomRight { right: 2180, bottom: 1380 }),
        (ElementKind::HealthBar, Allegiance::Ally) => Some(Placement::Centred { x: -1088i32, y: 1021 }),
        (ElementKind::HealthBar, Allegiance::Enemy) => Some(Placement::Centred { x: 1280, y: -435i32 }),
        (ElementKind::HealthNumber, Allegiance::Ally) => Some(Placement::FromTopLeft { left: 640, top: 1000 }),
        (ElementKind::HealthNumber, Allegiance::Enemy) => None,
    }
}

/// Looks up the layout table.
pub fn layout(kind: ElementKind, side: Allegiance) -> (r: Option<Placement>)
    ensures
        r == layout_of(kind, side),
{
    match (kind, side) {
        (ElementKind::Sprite, Allegiance::Ally) => Some(Placement::SpriteSlot { half: ScreenSide::Right }),
        (ElementKind::Sprite, Allegiance::Enemy) => Some(Placement::SpriteSlot { half: ScreenSide::Left }),
        (ElementKind::Name, Allegiance::Ally) => Some(Placement::FromTopLeft { left: 300, top: 50 }),
        (ElementKind::Name, Allegiance::Enemy) => Some(Placement::FromBottomRight { right: 430, bottom: 1900 }),
        (ElementKind::Level, Allegiance::Ally) => Some(Placement::FromTopLeft { left: 1000, top: 400 }),
        (ElementKind::Level, Allegiance::Enemy) => Some(Placement::FromBottomRight { right: 700, bottom: 1650 }),
        (ElementKind::HealthLabel, Allegiance::Ally) => Some(Placement::FromTopLeft { left: 220, top: 750 }),
        (ElementKind::HealthLabel, Allegiance::Enemy) => Some(Placement::FromBottomRight { right: 2180, bottom: 1380 }),
        (ElementKind::HealthBar, Allegiance::Ally) => Some(Placement::Centred { x: -1088, y: 1021 }),
        (ElementKind::HealthBar, Allegiance::Enemy) => Some(Placement::Centred { x: 1280, y: -435 }),
        (ElementKind::HealthNumber, Allegiance::Ally) => Some(Placement::FromTopLeft { left: 640, top: 1000 }),
        (ElementKind::HealthNumber, Allegiance::Enemy) => None,
    }
}

/// The character of a decimal digit.
pub open spec fn digit_char(d: nat) -> char {
    seq!['0', '1', '2', '3', '4', '5', '6', '7', '8', '9'][d as int]
}

/// The decimal notation of a natural number, without sign or leading zeros.
pub open spec fn decimal_digits(n: nat) -> Seq<char>
    decreases n,
{
    if n < 10 {
        seq![digit_char(n)]
    } else {
        decimal_digits(n / 10).push(digit_char(n % 10))
    }
}

/// What `str::to_uppercase` makes of a text.
pub uninterp spec fn uppercase_of(s: Seq<char>) -> Seq<char>;

/// Relies on `str::to_uppercase`: the result depends on the characters alone.
#[verifier::external_body]
fn uppercase(s: &str) -> (r: String)
    ensures
        r@ == uppercase_of(s@),
{
    s.to_uppercase()
}

/// Relies on `ToString::to_string` for `u32`: the decimal notation of the number.
#[verifier::external_body]
fn decimal_text(n: u32) -> (r: String)
    ensures
        r@ == decimal_digits(n as nat),
{
    n.to_string()
}

/// The asset path of a fighter's sprite: seen from the back for an ally, from
/// the front for an enemy.
pub open spec fn sprite_path_of(name: Seq<char>, side: Allegiance) -> Seq<char> {
    match side {
        Allegiance::Ally => "sprites/back_sprites/"@ + name + "_back.png"@,
        Allegiance::Enemy => "sprites/front_sprites/"@ + name + "_front.png"@,
    }
}

/// The text or path that an element of the given kind shows for a fighter.
pub open spec fn content_of(f: FighterInstance, kind: ElementKind) -> Seq<char> {
    match kind {
        ElementKind::Sprite => sprite_path_of(f.name@, f.allegiance),
        ElementKind::Name => uppercase_of(f.name@),
        ElementKind::Level => ":L"@ + decimal_digits(f.level as nat),
        ElementKind::HealthLabel => "HP:"@,
        ElementKind::HealthBar => Seq::empty(),
        ElementKind::HealthNumber => decimal_digits(f.current_hit_points as nat) + "/"@
            + decimal_digits(f.total_hit_points as nat),
    }
}

/// The element of the given kind for a fighter, where its side shows one.
pub open spec fn element_of(f: FighterInstance, kind: ElementKind) -> (ElementKind, Allegiance, Seq<char>, Placement) {
    (kind, f.allegiance, content_of(f, kind), layout_of(kind, f.allegiance).unwrap())
}

/// A fighter's whole display, in drawing order: sprite, name, level, health
/// label, health bar, and, for an ally only, its health numbers.
pub open spec fn fighter_elements(f: FighterInstance) -> Seq<(ElementKind, Allegiance, Seq<char>, Placement)> {
    let shown = seq![
        element_of(f, ElementKind::Sprite),
        element_of(f, ElementKind::Name),
        element_of(f, ElementKind::Level),
        element_of(f, ElementKind::HealthLabel),
        element_of(f, ElementKind::HealthBar),
    ];
    match f.allegiance {
        Allegiance::Ally => shown.push(element_of(f, ElementKind::HealthNumber)),
        Allegiance::Enemy => shown,
    }
}

/// The views of a list of elements.
pub open spec fn views_of(v: Seq<VisualElement>) -> Seq<(ElementKind, Allegiance, Seq<char>, Placement)> {
    v.map_values(|e: VisualElement| e@)
}

/// The asset path of a fighter's sprite.
pub fn sprite_path(f: &FighterInstance) -> (r: String)
    ensures
        r@ == sprite_path_of(f.name@, f.allegiance),
{
    match f.allegiance {
        Allegiance::Ally => String::from_str("sprites/back_sprites/").concat(f.name.as_str()).concat(
            "_back.png",
        ),
        Allegiance::Enemy => String::from_str("sprites/front_sprites/").concat(
            f.name.as_str(),
        ).concat("_front.png"),
    }
}

/// The sprite of a fighter, drawn in its side's sprite slot.
pub fn sprite_element(f: &FighterInstance) -> (r: VisualElement)
    ensures
        r@ == element_of(*f, ElementKind::Sprite),
{
    VisualElement {
        kind: ElementKind::Sprite,
        side: f.allegiance,
        content: sprite_path(f),
        placement: layout(ElementKind::Sprite, f.allegiance).unwrap(),
    }
}

/// The label with a fighter's name in capitals.
pub fn name_element(f: &FighterInstance) -> (r: VisualElement)
    ensures
        r@ == element_of(*f, ElementKind::Name),
{
    VisualElement {
        kind: ElementKind::Name,
        side: f.allegiance,
        content: uppercase(f.name.as_str()),
        placement: layout(ElementKind::Name, f.allegiance).unwrap(),
    }
}

/// The label with a fighter's level, written `:L` and the number.
pub fn level_element(f: &FighterInstance) -> (r: VisualElement)
    ensures
        r@ == element_of(*f, ElementKind::Level),
{
    let digits = decimal_text(f.level);
    VisualElement {
        kind: ElementKind::Level,
        side: f.allegiance,
        content: String::from_str(":L").concat(digits.as_str()),
        placement: layout(ElementKind::Level, f.allegiance).unwrap(),
    }
}

/// The `HP:` label beside a fighter's health bar.
pub fn health_label_element(f: &FighterInstance) -> (r: VisualElement)
    ensures
        r@ == element_of(*f, ElementKind::HealthLabel),
{
    VisualElement {
        kind: ElementKind::HealthLabel,
        side: f.allegiance,
        content: String::from_str("HP:"),
        placement: layout(ElementKind::HealthLabel, f.allegiance).unwrap(),
    }
}

/// A fighter's health bar.
pub fn health_bar_element(f: &FighterInstance) -> (r: VisualElement)
    ensures
        r@ == element_of(*f, ElementKind::HealthBar),
{
    VisualElement {
        kind: ElementKind::HealthBar,
        side: f.allegiance,
        content: String::new(),
        placement: layout(ElementKind::HealthBar, f.allegiance).unwrap(),
    }
}

/// The label with a fighter's current and total health, written `current/total`;
/// only an ally shows one.
pub fn health_number_element(f: &FighterInstance) -> (r: Option<VisualElement>)
    ensures
        r.is_some() <==> f.allegiance == Allegiance::Ally,
        r.is_some() ==> r.unwrap()@ == element_of(*f, ElementKind::HealthNumber),
{
    match layout(ElementKind::HealthNumber, f.allegiance) {
        Some(placement) => {
            let current = decimal_text(f.current_hit_points);
            let total = decimal_text(f.total_hit_points);
            let text = current.concat("/").concat(total.as_str());
            Some(VisualElement { kind: ElementKind::HealthNumber, side: f.allegiance, content: text, placement })
        },
        None => None,
    }
}

/// All the elements of a fighter's display, in drawing order.
pub fn render_fighter(f: &FighterInstance) -> (r: Vec<VisualElement>)
    ensures
        views_of(r@) == fighter_elements(*f),
{
    let mut r: Vec<VisualElement> = Vec::new();
    r.push(sprite_element(f));
    r.push(name_element(f));
    r.push(level_element(f));
    r.push(health_label_element(f));
    r.push(health_bar_element(f));
    match health_number_element(f) {
        Some(e) => r.push(e),
        None => {},
    }
    assert(views_of(r@) =~= fighter_elements(*f));
    r
}

} // verus!
