use vstd::prelude::*;
use crate::text::{chars_eq, chars_of, find_chars, find_from, lemma_find_from, matches_at, slice_to_vec, string_of, views_of};
use crate::num::{parse_i32, parse_i32_spec, parse_unsigned, parse_unsigned_spec};

verus! {

broadcast use vstd::string::group_string_axioms;

// ---------------------------------------------------------------------------
// Reading fields out of the game server's XML answers by plain text search
// ---------------------------------------------------------------------------

/// `<tag>`
pub open spec fn open_tag(tag: Seq<char>) -> Seq<char> {
    seq!['<'] + tag + seq!['>']
}

/// `</tag>`
pub open spec fn close_tag(tag: Seq<char>) -> Seq<char> {
    seq!['<', '/'] + tag + seq!['>']
}

/// The text between the first `<tag>` and the first `</tag>` after it.
pub open spec fn inner_text(xml: Seq<char>, tag: Seq<char>) -> Option<Seq<char>> {
    match find_from(xml, open_tag(tag), 0) {
        Some(p) => {
            let start = p + open_tag(tag).len();
            match find_from(xml, close_tag(tag), start) {
                Some(e) => Some(xml.subrange(start, e)),
                None => None,
            }
        },
        None => None,
    }
}

fn tag_chars(tag: &[char], closing: bool) -> (r: Vec<char>)
    ensures
        r@ == (if closing {
            close_tag(tag@)
        } else {
            open_tag(tag@)
        }),
{
    let mut r: Vec<char> = Vec::new();
    r.push('<');
    if closing {
        r.push('/');
    }
    let mut i: usize = 0;
    while i < tag.len()
        invariant
            i <= tag@.len(),
            r@ == (if closing {
                seq!['<', '/']
            } else {
                seq!['<']
            }) + tag@.take(i as int),
        decreases tag@.len() - i,
    {
        r.push(tag[i]);
        i = i + 1;
        assert(tag@.take(i as int) == tag@.take(i - 1).push(tag@[i - 1]));
    }
    r.push('>');
    assert(tag@.take(tag@.len() as int) == tag@);
    r
}

/// The text between `<tag>` and `</tag>`, on characters.
pub fn inner_text_chars(xml: &[char], tag: &[char]) -> (r: Option<Vec<char>>)
    ensures
        match r {
            Some(v) => inner_text(xml@, tag@) == Some(v@),
            None => inner_text(xml@, tag@) is None,
        },
{
    let open = tag_chars(tag, false);
    let close = tag_chars(tag, true);
    let xl = xml.len();
    match find_chars(xml, open.as_slice(), 0) {
        Some(p) => {
            proof {
                lemma_find_from(xml@, open@, 0);
                assert(p + open@.len() <= xl);
            }
            let start = p + open.len();
            match find_chars(xml, close.as_slice(), start) {
                Some(e) => {
                    proof {
                        lemma_find_from(xml@, close@, start as int);
                    }
                    Some(slice_to_vec(xml, start, e))
                },
                None => None,
            }
        },
        None => None,
    }
}

/// The text between the first `<tag>` and the first `</tag>` after it, if both occur.
pub fn xml_inner_text(xml: &str, tag: &str) -> (r: Option<String>)
    ensures
        match r {
            Some(v) => inner_text(xml@, tag@) == Some(v@),
            None => inner_text(xml@, tag@) is None,
        },
{
    let x = chars_of(xml);
    let t = chars_of(tag);
    match inner_text_chars(x.as_slice(), t.as_slice()) {
        Some(v) => Some(string_of(v.as_slice())),
        None => None,
    }
}

pub open spec fn profile_open() -> Seq<char> {
    "<ProfileData"@
}

pub open spec fn profile_close() -> Seq<char> {
    "</ProfileData>"@
}

pub open spec fn owned_car_open() -> Seq<char> {
    "<OwnedCarTrans"@
}

pub open spec fn owned_car_close() -> Seq<char> {
    "</OwnedCarTrans>"@
}

pub open spec fn custom_car_open() -> Seq<char> {
    "<CustomCar"@
}

/// Name, level, icon index and persona id, the four fields of a persona.
pub type PersonaFields = (Seq<char>, Seq<char>, Seq<char>, Seq<char>);

/// The `Name`, `Level`, `IconIndex` and `PersonaId` of a persona document.
pub open spec fn persona_info(xml: Seq<char>) -> Option<PersonaFields> {
    match (
        inner_text(xml, "Name"@),
        inner_text(xml, "Level"@),
        inner_text(xml, "IconIndex"@),
        inner_text(xml, "PersonaId"@),
    ) {
        (Some(n), Some(l), Some(i), Some(p)) => Some((n, l, i, p)),
        _ => None,
    }
}

/// The persona fields of the first `<ProfileData ...> ... </ProfileData>` block.
pub open spec fn permanent_session(xml: Seq<char>) -> Option<PersonaFields> {
    match find_from(xml, profile_open(), 0) {
        Some(s) => match find_from(xml, profile_close(), s) {
            Some(e) => persona_info(xml.subrange(s, e + profile_close().len())),
            None => None,
        },
        None => None,
    }
}

/// Where the block that starts with `open` at or after `from` ends (just past `close`).
pub open spec fn block_at(xml: Seq<char>, open: Seq<char>, close: Seq<char>, from: int) -> Option<
    (int, int),
> {
    match find_from(xml, open, from) {
        Some(s) => match find_from(xml, close, s) {
            Some(e) => Some((s, e + close.len())),
            None => None,
        },
        None => None,
    }
}

pub proof fn lemma_block_at(xml: Seq<char>, open: Seq<char>, close: Seq<char>, from: int)
    requires
        0 <= from,
        close.len() > 0,
    ensures
        block_at(xml, open, close, from) matches Some((s, end)) ==> from <= s < end <= xml.len()
            && matches_at(xml, open, s),
{
    lemma_find_from(xml, open, from);
    if let Some(s) = find_from(xml, open, from) {
        lemma_find_from(xml, close, s);
    }
}

/// The persona ids of all `<ProfileData>` blocks from `from` on, in order.
pub open spec fn persona_ids_from(xml: Seq<char>, from: int) -> Seq<Seq<char>>
    decreases xml.len() + 1 - from,
{
    if from < 0 {
        Seq::empty()
    } else {
        match block_at(xml, profile_open(), profile_close(), from) {
            Some((s, end)) => {
                proof {
                    reveal_strlit("</ProfileData>");
                    lemma_block_at(xml, profile_open(), profile_close(), from);
                }
                let rest = persona_ids_from(xml, end);
                match inner_text(xml.subrange(s, end), "PersonaId"@) {
                    Some(p) => seq![p] + rest,
                    None => rest,
                }
            },
            None => Seq::empty(),
        }
    }
}

/// The car name of the default owned car, searching the blocks from `from` on,
/// the block at position `idx` being counted as `target`'s candidate.
pub open spec fn default_car_from(xml: Seq<char>, from: int, idx: int, target: int) -> Option<
    Seq<char>,
>
    decreases xml.len() + 1 - from,
{
    if from < 0 {
        None
    } else {
        match block_at(xml, owned_car_open(), owned_car_close(), from) {
            Some((s, end)) => {
                proof {
                    reveal_strlit("</OwnedCarTrans>");
                    lemma_block_at(xml, owned_car_open(), owned_car_close(), from);
                }
                let block = xml.subrange(s, end);
                match find_from(block, custom_car_open(), 0) {
                    Some(c) => if idx == target {
                        inner_text(block.skip(c), "Name"@)
                    } else {
                        default_car_from(xml, end, idx + 1, target)
                    },
                    None => default_car_from(xml, end, idx + 1, target),
                }
            },
            None => None,
        }
    }
}

/// The name of the custom car in the owned-car block whose index is `DefaultOwnedCarIndex`.
pub open spec fn default_car(xml: Seq<char>) -> Option<Seq<char>> {
    match inner_text(xml, "DefaultOwnedCarIndex"@) {
        Some(d) => match parse_unsigned_spec(d, usize::MAX as int) {
            Some(t) => default_car_from(xml, 0, 0, t),
            None => None,
        },
        None => None,
    }
}

/// The name of the custom car in the first owned-car block, from `from` on, whose `Id` is
/// `car_id` and that holds a custom car.
pub open spec fn car_by_id_from(xml: Seq<char>, car_id: Seq<char>, from: int) -> Option<Seq<char>>
    decreases xml.len() + 1 - from,
{
    if from < 0 {
        None
    } else {
        match block_at(xml, owned_car_open(), owned_car_close(), from) {
            Some((s, end)) => {
                proof {
                    reveal_strlit("</OwnedCarTrans>");
                    lemma_block_at(xml, owned_car_open(), owned_car_close(), from);
                }
                let block = xml.subrange(s, end);
                if inner_text(block, "Id"@) == Some(car_id) && find_from(
                    block,
                    custom_car_open(),
                    0,
                ) is Some {
                    inner_text(block.skip(find_from(block, custom_car_open(), 0)->0), "Name"@)
                } else {
                    car_by_id_from(xml, car_id, end)
                }
            },
            None => None,
        }
    }
}

/// `EventId` of a lobby answer, as an `i32`.
pub open spec fn lobby_event_id(xml: Seq<char>) -> Option<i32> {
    match inner_text(xml, "EventId"@) {
        Some(t) => parse_i32_spec(t),
        None => None,
    }
}

/// Whether bit `bit` of `mask` is set.
pub open spec fn coin_bit(mask: i32, bit: u32) -> bool {
    mask & (1i32 << bit) != 0
}

/// How many of the bits `15, 14, ..., 16 - n` of `mask` are set.
pub open spec fn coins_counted(mask: i32, n: nat) -> int
    decreases n,
{
    if n == 0 {
        0
    } else {
        coins_counted(mask, (n - 1) as nat) + if coin_bit(mask, (16 - n) as u32) {
            1int
        } else {
            0int
        }
    }
}

proof fn lemma_coins_bounds(m: i32, n: nat)
    requires
        n <= 15,
    ensures
        0 <= coins_counted(m, n) <= n,
        (forall|k: u32| 16 - n <= k <= 15 ==> #[trigger] coin_bit(m, k)) ==> coins_counted(m, n) == n,
        (forall|k: u32| 16 - n <= k <= 15 ==> !#[trigger] coin_bit(m, k)) ==> coins_counted(m, n) == 0,
    decreases n,
{
    if n > 0 {
        lemma_coins_bounds(m, (n - 1) as nat);
    }
}

proof fn lemma_coins_same(m1: i32, m2: i32, n: nat)
    requires
        n <= 15,
        forall|k: u32| 16 - n <= k <= 15 ==> #[trigger] coin_bit(m1, k) == coin_bit(m2, k),
    ensures
        coins_counted(m1, n) == coins_counted(m2, n),
    decreases n,
{
    if n > 0 {
        lemma_coins_same(m1, m2, (n - 1) as nat);
        assert(coin_bit(m1, (16 - n) as u32) == coin_bit(m2, (16 - n) as u32));
    }
}

proof fn lemma_coins_one_more(m1: i32, m2: i32, b: u32, n: nat)
    requires
        n <= 15,
        1 <= b <= 15,
        coin_bit(m1, b),
        !coin_bit(m2, b),
        forall|k: u32| 16 - n <= k <= 15 && k != b ==> #[trigger] coin_bit(m1, k) == coin_bit(m2, k),
    ensures
        coins_counted(m1, n) == coins_counted(m2, n) + if 16 - n <= b { 1int } else { 0int },
    decreases n,
{
    if n > 0 {
        lemma_coins_one_more(m1, m2, b, (n - 1) as nat);
        assert(coin_bit(m1, (16 - n) as u32) == coin_bit(m2, (16 - n) as u32) || (16 - n) as u32 == b);
    }
}

/// The coins collected are the set bits among bits 15 down to 1 of the mask: bit 0 and the
/// bits above 15 never count, setting one of bits 1 to 15 counts one coin more than clearing
/// it, all of them set is 15 coins and none set is none.
pub proof fn law_coins_are_set_bits(mask: i32, b: u32)
    requires
        1 <= b <= 15,
    ensures
        0 <= coins_counted(mask, 15) <= 15,
        coins_counted(mask, 15) == coins_counted(mask & 0xfffei32, 15),
        mask & 0xfffei32 == 0xfffei32 ==> coins_counted(mask, 15) == 15,
        mask & 0xfffei32 == 0 ==> coins_counted(mask, 15) == 0,
        coins_counted(mask | (1i32 << b), 15) == coins_counted(mask & !(1i32 << b), 15) + 1,
{
    lemma_coins_bounds(mask, 15);
    assert(forall|k: u32| 1 <= k <= 15 ==> (mask & (1i32 << k) != 0) == ((mask & 0xfffei32) & (1i32 << k) != 0)) by (bit_vector);
    assert forall|k: u32| 16 - 15 <= k <= 15 implies #[trigger] coin_bit(mask, k) == coin_bit(mask & 0xfffei32, k) by {}
    lemma_coins_same(mask, mask & 0xfffei32, 15);
    assert(mask & 0xfffei32 == 0xfffei32 ==> forall|k: u32| 1 <= k <= 15 ==> mask & (1i32 << k) != 0) by (bit_vector);
    assert(mask & 0xfffei32 == 0 ==> forall|k: u32| 1 <= k <= 15 ==> mask & (1i32 << k) == 0) by (bit_vector);
    let m1 = mask | (1i32 << b);
    let m2 = mask & !(1i32 << b);
    assert(m1 & (1i32 << b) != 0 && m2 & (1i32 << b) == 0) by (bit_vector)
        requires
            1 <= b <= 15,
            m1 == mask | (1i32 << b),
            m2 == mask & !(1i32 << b),
    ;
    assert(forall|k: u32| 1 <= k <= 15 && k != b ==> (m1 & (1i32 << k) != 0) == (m2 & (1i32 << k) != 0)) by (bit_vector)
        requires
            1 <= b <= 15,
            m1 == mask | (1i32 << b),
            m2 == mask & !(1i32 << b),
    ;
    assert forall|k: u32| 16 - 15 <= k <= 15 && k != b implies #[trigger] coin_bit(m1, k) == coin_bit(m2, k) by {}
    lemma_coins_one_more(m1, m2, b, 15);
}

/// Coins collected (bits 15 down to 1 of `CoinsCollected`), `NumCoins` and `Streak`.
pub open spec fn treasure_hunt(xml: Seq<char>) -> Option<(i32, i32, i32)> {
    match (
        inner_text(xml, "CoinsCollected"@),
        inner_text(xml, "NumCoins"@),
        inner_text(xml, "Streak"@),
    ) {
        (Some(c), Some(n), Some(s)) => match (
            parse_i32_spec(c),
            parse_i32_spec(n),
            parse_i32_spec(s),
        ) {
            (Some(mask), Some(total), Some(day)) => Some(
                (coins_counted(mask, 15) as i32, total, day),
            ),
            _ => None,
        },
        _ => None,
    }
}


/// The block that starts with `open` at or after `from`: its start and its end just past `close`.
fn block_at_chars(xml: &[char], open: &[char], close: &[char], from: usize) -> (r: Option<
    (usize, usize),
>)
    requires
        close@.len() > 0,
    ensures
        match r {
            Some((s, e)) => block_at(xml@, open@, close@, from as int) == Some((s as int, e as int))
                && from <= s < e <= xml@.len(),
            None => block_at(xml@, open@, close@, from as int) is None,
        },
{
    proof {
        lemma_block_at(xml@, open@, close@, from as int);
    }
    let xl = xml.len();
    match find_chars(xml, open, from) {
        Some(s) => match find_chars(xml, close, s) {
            Some(e) => {
                proof {
                    lemma_find_from(xml@, close@, s as int);
                    assert(e + close@.len() <= xl);
                }
                Some((s, e + close.len()))
            },
            None => None,
        },
        None => None,
    }
}

fn persona_info_chars(xml: &[char]) -> (r: Option<(String, String, String, String)>)
    ensures
        match r {
            Some((n, l, i, p)) => persona_info(xml@) == Some((n@, l@, i@, p@)),
            None => persona_info(xml@) is None,
        },
{
    let name = inner_text_chars(xml, chars_of("Name").as_slice());
    let level = inner_text_chars(xml, chars_of("Level").as_slice());
    let icon = inner_text_chars(xml, chars_of("IconIndex").as_slice());
    let pid = inner_text_chars(xml, chars_of("PersonaId").as_slice());
    match (name, level, icon, pid) {
        (Some(n), Some(l), Some(i), Some(p)) => Some(
            (
                string_of(n.as_slice()),
                string_of(l.as_slice()),
                string_of(i.as_slice()),
                string_of(p.as_slice()),
            ),
        ),
        _ => None,
    }
}

/// Name, level, icon index and persona id of a `GetPersonaInfo` answer.
pub fn parse_persona_info(xml: &str) -> (r: Option<(String, String, String, String)>)
    ensures
        match r {
            Some((n, l, i, p)) => persona_info(xml@) == Some((n@, l@, i@, p@)),
            None => persona_info(xml@) is None,
        },
{
    let x = chars_of(xml);
    persona_info_chars(x.as_slice())
}

/// Name, level, icon index and persona id of the first profile of a
/// `GetPermanentSession` answer.
pub fn parse_permanent_session(xml: &str) -> (r: Option<(String, String, String, String)>)
    ensures
        match r {
            Some((n, l, i, p)) => permanent_session(xml@) == Some((n@, l@, i@, p@)),
            None => permanent_session(xml@) is None,
        },
{
    let x = chars_of(xml);
    let open = chars_of("<ProfileData");
    let close = chars_of("</ProfileData>");
    proof {
        reveal_strlit("</ProfileData>");
    }
    match block_at_chars(x.as_slice(), open.as_slice(), close.as_slice(), 0) {
        Some((s, e)) => {
            let block = slice_to_vec(x.as_slice(), s, e);
            persona_info_chars(block.as_slice())
        },
        None => None,
    }
}

/// The persona ids of every `<ProfileData>` block, in order.
pub fn parse_all_persona_ids(xml: &str) -> (r: Vec<String>)
    ensures
        views_of(r@) == persona_ids_from(xml@, 0),
{
    let x = chars_of(xml);
    let open = chars_of("<ProfileData");
    let close = chars_of("</ProfileData>");
    let pid_tag = chars_of("PersonaId");
    proof {
        reveal_strlit("</ProfileData>");
    }
    let mut ids: Vec<String> = Vec::new();
    let mut from: usize = 0;
    loop
        invariant
            from <= x@.len(),
            x@ == xml@,
            open@ == profile_open(),
            close@ == profile_close(),
            close@.len() > 0,
            pid_tag@ == "PersonaId"@,
            views_of(ids@) + persona_ids_from(x@, from as int) == persona_ids_from(x@, 0),
        decreases x@.len() + 1 - from,
    {
        match block_at_chars(x.as_slice(), open.as_slice(), close.as_slice(), from) {
            Some((s, e)) => {
                let block = slice_to_vec(x.as_slice(), s, e);
                let ghost before = ids@;
                match inner_text_chars(block.as_slice(), pid_tag.as_slice()) {
                    Some(p) => {
                        ids.push(string_of(p.as_slice()));
                        assert(views_of(ids@) == views_of(before).push(p@));
                        assert(views_of(before).push(p@) + persona_ids_from(x@, e as int)
                            == views_of(before) + (seq![p@] + persona_ids_from(x@, e as int)));
                    },
                    None => {
                        assert(views_of(ids@) == views_of(before));
                    },
                }
                from = e;
            },
            None => {
                assert(persona_ids_from(x@, from as int) == Seq::<Seq<char>>::empty());
                assert(views_of(ids@) + Seq::<Seq<char>>::empty() == views_of(ids@));
                return ids;
            },
        }
    }
}

/// The name of the custom car of the default owned car of a car-slots answer.
pub fn parse_default_car(xml: &str) -> (r: Option<String>)
    ensures
        match r {
            Some(v) => default_car(xml@) == Some(v@),
            None => default_car(xml@) is None,
        },
{
    let x = chars_of(xml);
    let idx_text = match inner_text_chars(x.as_slice(), chars_of("DefaultOwnedCarIndex").as_slice()) {
        Some(t) => t,
        None => return None,
    };
    let target = match parse_unsigned(idx_text.as_slice(), usize::MAX as u64) {
        Some(v) => v,
        None => return None,
    };
    let open = chars_of("<OwnedCarTrans");
    let close = chars_of("</OwnedCarTrans>");
    let custom = chars_of("<CustomCar");
    let name_tag = chars_of("Name");
    proof {
        reveal_strlit("</OwnedCarTrans>");
    }
    let mut idx: u64 = 0;
    let mut from: usize = 0;
    loop
        invariant
            from <= x@.len(),
            idx <= from,
            x@ == xml@,
            open@ == owned_car_open(),
            close@ == owned_car_close(),
            close@.len() > 0,
            custom@ == custom_car_open(),
            name_tag@ == "Name"@,
            default_car(xml@) == default_car_from(x@, from as int, idx as int, target as int),
        decreases x@.len() + 1 - from,
    {
        match block_at_chars(x.as_slice(), open.as_slice(), close.as_slice(), from) {
            Some((s, e)) => {
                let block = slice_to_vec(x.as_slice(), s, e);
                match find_chars(block.as_slice(), custom.as_slice(), 0) {
                    Some(c) => {
                        if idx == target {
                            proof {
                                lemma_find_from(block@, custom@, 0);
                            }
                            let rest = slice_to_vec(block.as_slice(), c, block.len());
                            assert(rest@ == block@.skip(c as int));
                            return match inner_text_chars(rest.as_slice(), name_tag.as_slice()) {
                                Some(v) => Some(string_of(v.as_slice())),
                                None => None,
                            };
                        }
                    },
                    None => {},
                }
                idx = idx + 1;
                from = e;
            },
            None => {
                return None;
            },
        }
    }
}

/// The name of the custom car of the owned car whose `Id` is `car_id`.
pub fn find_car_by_id(carslots_xml: &str, car_id: &str) -> (r: Option<String>)
    ensures
        match r {
            Some(v) => car_by_id_from(carslots_xml@, car_id@, 0) == Some(v@),
            None => car_by_id_from(carslots_xml@, car_id@, 0) is None,
        },
{
    let x = chars_of(carslots_xml);
    let id = chars_of(car_id);
    let open = chars_of("<OwnedCarTrans");
    let close = chars_of("</OwnedCarTrans>");
    let custom = chars_of("<CustomCar");
    let name_tag = chars_of("Name");
    let id_tag = chars_of("Id");
    proof {
        reveal_strlit("</OwnedCarTrans>");
    }
    let mut from: usize = 0;
    loop
        invariant
            from <= x@.len(),
            x@ == carslots_xml@,
            id@ == car_id@,
            open@ == owned_car_open(),
            close@ == owned_car_close(),
            close@.len() > 0,
            custom@ == custom_car_open(),
            name_tag@ == "Name"@,
            id_tag@ == "Id"@,
            car_by_id_from(x@, id@, 0) == car_by_id_from(x@, id@, from as int),
        decreases x@.len() + 1 - from,
    {
        match block_at_chars(x.as_slice(), open.as_slice(), close.as_slice(), from) {
            Some((s, e)) => {
                let block = slice_to_vec(x.as_slice(), s, e);
                let same = match inner_text_chars(block.as_slice(), id_tag.as_slice()) {
                    Some(v) => chars_eq(v.as_slice(), id.as_slice()),
                    None => false,
                };
                if same {
                    match find_chars(block.as_slice(), custom.as_slice(), 0) {
                        Some(c) => {
                            proof {
                                lemma_find_from(block@, custom@, 0);
                            }
                            let rest = slice_to_vec(block.as_slice(), c, block.len());
                            assert(rest@ == block@.skip(c as int));
                            return match inner_text_chars(rest.as_slice(), name_tag.as_slice()) {
                                Some(v) => Some(string_of(v.as_slice())),
                                None => None,
                            };
                        },
                        None => {},
                    }
                }
                from = e;
            },
            None => {
                return None;
            },
        }
    }
}

/// The `EventId` of a lobby answer.
pub fn parse_event_id_from_lobby(xml: &str) -> (r: Option<i32>)
    ensures
        r == lobby_event_id(xml@),
{
    let x = chars_of(xml);
    match inner_text_chars(x.as_slice(), chars_of("EventId").as_slice()) {
        Some(t) => parse_i32(t.as_slice()),
        None => None,
    }
}

/// How many of the bits 15 down to 1 of `mask` are set.
pub fn count_coins(mask: i32) -> (r: i32)
    ensures
        r == coins_counted(mask, 15),
        0 <= r <= 15,
{
    let mut collected: i32 = 0;
    let mut i: u32 = 0;
    while i < 15
        invariant
            i <= 15,
            collected == coins_counted(mask, i as nat),
            0 <= collected <= i,
        decreases 15 - i,
    {
        if mask & (1i32 << (15 - i)) != 0 {
            collected = collected + 1;
        }
        i = i + 1;
    }
    collected
}

/// Coins collected, number of coins and streak day of a treasure-hunt answer.
pub fn parse_treasure_hunt(xml: &str) -> (r: Option<(i32, i32, i32)>)
    ensures
        r == treasure_hunt(xml@),
{
    let x = chars_of(xml);
    let c = inner_text_chars(x.as_slice(), chars_of("CoinsCollected").as_slice());
    let n = inner_text_chars(x.as_slice(), chars_of("NumCoins").as_slice());
    let s = inner_text_chars(x.as_slice(), chars_of("Streak").as_slice());
    match (c, n, s) {
        (Some(c), Some(n), Some(s)) => match (
            parse_i32(c.as_slice()),
            parse_i32(n.as_slice()),
            parse_i32(s.as_slice()),
        ) {
            (Some(mask), Some(total), Some(day)) => Some((count_coins(mask), total, day)),
            _ => None,
        },
        _ => None,
    }
}

} // verus!
