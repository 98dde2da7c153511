//! The turn order of a battle.
use vstd::prelude::*;
use crate::slot_table::slot_contents;
use crate::battle::BattleCurrentEntities;
use crate::abilities::AbilityType;

verus! {

/// The order in which the participants act, by entity id, and whose turn is next.
pub struct TurnOrder {
    pub order: Vec<u64>,
    pub current_index: usize,
    /// A new turn may begin.
    pub next: bool,
}

impl Default for TurnOrder {
    /// An empty order, at index 0, ready for a turn.
    fn default() -> (r: Self)
        ensures
            r.order@.len() == 0,
            r.current_index == 0,
            r.next,
    {
        TurnOrder { order: Vec::new(), current_index: 0, next: true }
    }
}

impl TurnOrder {
    /// The index is usable: inside the order whenever the order is not empty.
    pub open spec fn index_in_range(self) -> bool {
        self.order@.len() > 0 ==> self.current_index < self.order@.len()
    }
}

/// What the engine reports of a participant.
#[derive(Clone, Copy, Debug, PartialEq, Eq, Structural)]
pub struct TurnMember {
    pub entity: u64,
    /// Its current hit points are above zero.
    pub alive: bool,
    /// It is a character of the player's party (not an enemy).
    pub is_character: bool,
    /// It has a set of abilities.
    pub has_abilities: bool,
    /// The family of the first ability in its set, if the set has one.
    pub first_ability: Option<AbilityType>,
}

/// An ability of a character: its position in the character's set and its family.
#[derive(Clone, Copy, Debug, PartialEq, Eq, Structural)]
pub struct PreparedAbility {
    pub index: usize,
    pub family: AbilityType,
}

/// Who acts in the current turn, the ability prepared for it and the ability selected.
#[derive(Clone, Copy, Debug, PartialEq, Eq, Structural)]
pub struct TurnCurrentMemberInfo {
    /// The character whose turn it is, by entity.
    pub character: Option<u64>,
    pub pre_operation: Option<PreparedAbility>,
    pub selected_operation: Option<PreparedAbility>,
}

/// The basic attack: the first ability of a set, of the attack family.
pub open spec fn basic_attack() -> PreparedAbility {
    PreparedAbility { index: 0, family: AbilityType::Attack }
}

impl Default for TurnCurrentMemberInfo {
    /// The default operation is a basic attack; nothing is prepared.
    ///
    /// A character is known here only by the entity that carries it, and no entity exists
    /// before one has been spawned, so the default names no character: the character of a
    /// turn is recorded when its turn begins.
    fn default() -> (r: Self)
        ensures
            r == (TurnCurrentMemberInfo { character: None, pre_operation: None, selected_operation: Some(basic_attack()) }),
    {
        TurnCurrentMemberInfo {
            character: None,
            pre_operation: None,
            selected_operation: Some(PreparedAbility { index: 0, family: AbilityType::Attack }),
        }
    }
}

/// The first ability of a set whose first family is `first`, as prepared for a turn.
pub open spec fn first_prepared(first: Option<AbilityType>) -> Option<PreparedAbility> {
    match first {
        Some(f) => Some(PreparedAbility { index: 0, family: f }),
        None => None,
    }
}

/// The first report about an entity, if any.
pub open spec fn lookup_member(members: Seq<TurnMember>, entity: u64) -> Option<TurnMember>
    decreases members.len(),
{
    if members.len() == 0 {
        None
    } else if members[0].entity == entity {
        Some(members[0])
    } else {
        lookup_member(members.drop_first(), entity)
    }
}

/// An entity is alive when it is reported alive; an entity not reported is not.
pub open spec fn member_alive(members: Seq<TurnMember>, entity: u64) -> bool {
    match lookup_member(members, entity) {
        Some(m) => m.alive,
        None => false,
    }
}

/// Finds the first report about an entity.
pub fn find_member(members: &Vec<TurnMember>, entity: u64) -> (r: Option<TurnMember>)
    ensures
        r == lookup_member(members@, entity),
{
    let mut i: usize = 0;
    proof {
        assert(members@.skip(0) =~= members@);
    }
    while i < members.len()
        invariant
            0 <= i <= members@.len(),
            lookup_member(members@, entity) == lookup_member(members@.skip(i as int), entity),
        decreases members@.len() - i,
    {
        proof {
            assert(members@.skip(i as int).drop_first() =~= members@.skip(i + 1));
        }
        if members[i].entity == entity {
            return Some(members[i]);
        }
        i = i + 1;
    }
    proof {
        assert(members@.skip(i as int).len() == 0);
    }
    None
}

/// The first index at or after `from` whose entity is alive, or the length when there is none.
pub open spec fn first_alive_from(order: Seq<u64>, members: Seq<TurnMember>, from: int) -> int
    decreases order.len() - from,
{
    if from >= order.len() {
        order.len() as int
    } else if member_alive(members, order[from]) {
        from
    } else {
        first_alive_from(order, members, from + 1)
    }
}

/// The outcome of one call of [`battle_order_system`].
#[derive(Clone, Copy, Debug, PartialEq, Eq, Structural)]
pub enum TurnStep {
    /// No turn begins: the order is empty or the current turn is not over.
    Waiting,
    /// Nobody in the order is alive; the order was emptied.
    Emptied,
    /// It is the turn of a character; the first of its abilities is to be prepared.
    CharacterTurn(u64),
    /// It is the turn of a character without abilities; the turn does not advance.
    CharacterWithoutAbilities(u64),
    /// It is the turn of an enemy (or of an entity that is no character); the next turn may begin.
    OtherTurn(u64),
}

/// The order after the dead met from `index` on (cyclically, up to the first living one) are
/// removed, and the index of that living one in the new order. With nobody alive, `None`.
pub open spec fn after_removing_dead(order: Seq<u64>, members: Seq<TurnMember>, index: int) -> Option<(Seq<u64>, int)> {
    let k1 = first_alive_from(order, members, index);
    if k1 < order.len() {
        Some((order.subrange(0, index) + order.subrange(k1, order.len() as int), index))
    } else {
        let k0 = first_alive_from(order, members, 0);
        if k0 < index {
            Some((order.subrange(k0, index), 0))
        } else {
            None
        }
    }
}

/// The first living entity from `from` on is found there, and everything met before it is dead.
proof fn lemma_first_alive_from(order: Seq<u64>, members: Seq<TurnMember>, from: int)
    requires
        0 <= from <= order.len(),
    ensures
        from <= first_alive_from(order, members, from) <= order.len(),
        forall|k: int| from <= k < first_alive_from(order, members, from) ==> !member_alive(members, #[trigger] order[k]),
        first_alive_from(order, members, from) < order.len() ==> member_alive(
            members,
            order[first_alive_from(order, members, from)],
        ),
    decreases order.len() - from,
{
    if from < order.len() && !member_alive(members, order[from]) {
        lemma_first_alive_from(order, members, from + 1);
    }
}

/// Starting a turn drops only participants that are not alive, and keeps every living one: when
/// the order is emptied nobody was alive; otherwise the turn goes to a living participant, every
/// living participant stays in the order, and nobody joins it (see [`battle_order_system`]).
pub proof fn lemma_turn_order_drops_only_dead(order: Seq<u64>, members: Seq<TurnMember>, index: int)
    requires
        0 <= index < order.len(),
    ensures
        match after_removing_dead(order, members, index) {
            None => forall|k: int| 0 <= k < order.len() ==> !member_alive(members, #[trigger] order[k]),
            Some((kept, i)) => {
                &&& 0 <= i < kept.len()
                &&& member_alive(members, kept[i])
                &&& forall|k: int| 0 <= k < order.len() && member_alive(members, #[trigger] order[k]) ==> kept.contains(order[k])
                &&& forall|x: u64| kept.contains(x) ==> order.contains(x)
            },
        },
{
    lemma_first_alive_from(order, members, index);
    lemma_first_alive_from(order, members, 0);
    let k1 = first_alive_from(order, members, index);
    let k0 = first_alive_from(order, members, 0);
    if k1 < order.len() {
        let kept = order.subrange(0, index) + order.subrange(k1, order.len() as int);
        assert(kept[index] == order[k1]);
        assert forall|k: int| 0 <= k < order.len() && member_alive(members, #[trigger] order[k]) implies kept.contains(order[k]) by {
            if k < index {
                assert(kept[k] == order[k]);
            } else {
                assert(k >= k1);
                assert(kept[index + (k - k1)] == order[k]);
            }
        }
        assert forall|x: u64| kept.contains(x) implies order.contains(x) by {
            let p = choose|p: int| 0 <= p < kept.len() && kept[p] == x;
            if p < index {
                assert(order[p] == x);
            } else {
                assert(order[k1 + (p - index)] == x);
            }
        }
    } else if k0 < index {
        let kept = order.subrange(k0, index);
        assert(kept[0] == order[k0]);
        assert forall|k: int| 0 <= k < order.len() && member_alive(members, #[trigger] order[k]) implies kept.contains(order[k]) by {
            assert(k0 <= k < index);
            assert(kept[k - k0] == order[k]);
        }
        assert forall|x: u64| kept.contains(x) implies order.contains(x) by {
            let p = choose|p: int| 0 <= p < kept.len() && kept[p] == x;
            assert(order[k0 + p] == x);
        }
    } else {
        assert forall|k: int| 0 <= k < order.len() implies !member_alive(members, #[trigger] order[k]) by {
            if k >= index {
            } else {
                assert(k < k0);
            }
        }
    }
}

/// Starts the next turn, if one may begin.
///
/// Participants that are not alive are dropped from the order as they are met, starting at the
/// current index and wrapping around, until a living one is found; if nobody is alive the order is
/// emptied. The living one's turn begins: for a character, its first ability is prepared, unless it
/// has none, in which case the turn stays where it is; for anyone else the next turn may begin at
/// once. The index then moves on by one, cyclically. A character whose turn begins is recorded
/// as the member of the turn, and the first ability of its set (if any) is prepared; the member
/// info is left alone otherwise.
pub fn battle_order_system(
    turn_order: &mut TurnOrder,
    members: &Vec<TurnMember>,
    info: &mut TurnCurrentMemberInfo,
) -> (step: TurnStep)
    requires
        old(turn_order).next ==> old(turn_order).index_in_range(),
    ensures
        !(step is CharacterTurn || step is CharacterWithoutAbilities) ==> *final(info) == *old(info),
        step matches TurnStep::CharacterWithoutAbilities(e) ==> final(info).character == Some(e)
            && final(info).pre_operation == old(info).pre_operation
            && final(info).selected_operation == old(info).selected_operation,
        step matches TurnStep::CharacterTurn(e) ==> final(info).character == Some(e)
            && final(info).pre_operation == first_prepared(lookup_member(members@, e).unwrap().first_ability)
            && final(info).selected_operation == old(info).selected_operation,
        final(turn_order).index_in_range() || (step is Waiting && *final(turn_order) == *old(turn_order)),
        if old(turn_order).order@.len() == 0 || !old(turn_order).next {
            step is Waiting && *final(turn_order) == *old(turn_order)
        } else {
            match after_removing_dead(old(turn_order).order@, members@, old(turn_order).current_index as int) {
                None => {
                    &&& step is Emptied
                    &&& final(turn_order).order@.len() == 0
                    &&& final(turn_order).current_index == 0
                    &&& !final(turn_order).next
                },
                Some((order, index)) => {
                    let entity = order[index];
                    let member = lookup_member(members@, entity).unwrap();
                    &&& final(turn_order).order@ == order
                    &&& member_alive(members@, entity)
                    &&& if member.is_character && !member.has_abilities {
                        &&& step == TurnStep::CharacterWithoutAbilities(entity)
                        &&& final(turn_order).current_index == index
                        &&& !final(turn_order).next
                    } else if member.is_character {
                        &&& step == TurnStep::CharacterTurn(entity)
                        &&& final(turn_order).current_index == (index + 1) % (order.len() as int)
                        &&& !final(turn_order).next
                    } else {
                        &&& step == TurnStep::OtherTurn(entity)
                        &&& final(turn_order).current_index == (index + 1) % (order.len() as int)
                        &&& final(turn_order).next
                    }
                },
            }
        },
{
    if turn_order.order.len() == 0 || !turn_order.next {
        return TurnStep::Waiting;
    }
    turn_order.next = false;
    let ghost o = turn_order.order@;
    let ghost start = turn_order.current_index as int;
    let ghost mut j: int = start;
    let ghost mut wrapped: bool = false;
    let mut current = turn_order.order[turn_order.current_index];
    loop
        invariant_except_break
            o == old(turn_order).order@,
            start == old(turn_order).current_index as int,
            old(turn_order).next,
            0 <= start < o.len(),
            !turn_order.next,
            turn_order.current_index < turn_order.order@.len(),
            current == turn_order.order@[turn_order.current_index as int],
            !wrapped ==> {
                &&& start <= j < o.len()
                &&& turn_order.current_index == start
                &&& turn_order.order@ == o.subrange(0, start) + o.subrange(j, o.len() as int)
                &&& first_alive_from(o, members@, start) == first_alive_from(o, members@, j)
            },
            wrapped ==> {
                &&& 0 <= j < start
                &&& turn_order.current_index == 0
                &&& turn_order.order@ == o.subrange(j, start)
                &&& first_alive_from(o, members@, start) == o.len()
                &&& first_alive_from(o, members@, 0) == first_alive_from(o, members@, j)
            },
        ensures
            !turn_order.next,
            turn_order.current_index < turn_order.order@.len(),
            current == turn_order.order@[turn_order.current_index as int],
            member_alive(members@, current),
            after_removing_dead(o, members@, start) == Some((turn_order.order@, turn_order.current_index as int)),
        decreases turn_order.order@.len(),
    {
        let alive = match find_member(members, current) {
            Some(m) => m.alive,
            None => false,
        };
        if alive {
            proof {
                if !wrapped {
                    assert(first_alive_from(o, members@, j) == j);
                } else {
                    assert(first_alive_from(o, members@, j) == j);
                }
            }
            break;
        }
        if turn_order.order.len() == 1 {
            proof {
                if !wrapped {
                    assert(turn_order.order@.len() == start + (o.len() - j));
                    assert(start == 0 && j == o.len() - 1);
                    assert(first_alive_from(o, members@, j + 1) == o.len());
                    assert(first_alive_from(o, members@, j) == o.len());
                } else {
                    assert(j == start - 1);
                    assert(first_alive_from(o, members@, j + 1) == first_alive_from(o, members@, start));
                    assert(first_alive_from(o, members@, j) == o.len());
                }
                assert(after_removing_dead(o, members@, start) is None);
            }
            turn_order.order.clear();
            assert(turn_order.order@.len() == 0);
            assert(turn_order.current_index == 0);
            assert(!turn_order.next);
            return TurnStep::Emptied;
        }
        let index = turn_order.current_index;
        turn_order.order.remove(index);
        if turn_order.current_index >= turn_order.order.len() {
            turn_order.current_index = 0;
        }
        proof {
            if !wrapped {
                if j + 1 < o.len() {
                    assert(turn_order.order@ =~= o.subrange(0, start) + o.subrange(j + 1, o.len() as int));
                    j = j + 1;
                } else {
                    assert(turn_order.order@ =~= o.subrange(0, start));
                    assert(first_alive_from(o, members@, j + 1) == o.len());
                    wrapped = true;
                    j = 0;
                }
            } else {
                assert(turn_order.order@ =~= o.subrange(j + 1, start));
                j = j + 1;
            }
        }
        current = turn_order.order[turn_order.current_index];
    }
    let member = find_member(members, current);
    let is_character = match member {
        Some(m) => m.is_character,
        None => false,
    };
    let step;
    if is_character {
        let has_abilities = match member {
            Some(m) => m.has_abilities,
            None => false,
        };
        info.character = Some(current);
        if !has_abilities {
            return TurnStep::CharacterWithoutAbilities(current);
        }
        let first = match member {
            Some(m) => m.first_ability,
            None => None,
        };
        info.pre_operation = match first {
            Some(f) => Some(PreparedAbility { index: 0, family: f }),
            None => None,
        };
        step = TurnStep::CharacterTurn(current);
    } else {
        turn_order.next = true;
        step = TurnStep::OtherTurn(current);
    }
    turn_order.current_index = (turn_order.current_index + 1) % turn_order.order.len();
    step
}


/// The participants whose speed key is `speed`, in their order.
pub open spec fn with_speed(s: Seq<(u64, u64)>, speed: u64) -> Seq<(u64, u64)> {
    s.filter(speed_is(speed))
}

/// Whether a participant (entity, speed key) has the given speed.
pub open spec fn speed_is(speed: u64) -> spec_fn((u64, u64)) -> bool {
    |p: (u64, u64)| p.1 == speed
}

/// Fastest first: speed keys never increase along the sequence.
pub open spec fn fastest_first(s: Seq<(u64, u64)>) -> bool {
    forall|i: int, j: int| 0 <= i < j < s.len() ==> #[trigger] s[i].1 >= #[trigger] s[j].1
}

/// `sorted` is `input` sorted fastest first, participants of equal speed keeping their order.
pub open spec fn stable_speed_sort(input: Seq<(u64, u64)>, sorted: Seq<(u64, u64)>) -> bool {
    &&& fastest_first(sorted)
    &&& forall|speed: u64| #[trigger] with_speed(sorted, speed) == with_speed(input, speed)
}

proof fn lemma_with_speed_none(s: Seq<(u64, u64)>, speed: u64)
    requires
        forall|i: int| 0 <= i < s.len() ==> s[i].1 != speed,
    ensures
        with_speed(s, speed) == Seq::<(u64, u64)>::empty(),
    decreases s.len(),
{
    reveal(Seq::filter);
    if s.len() > 0 {
        lemma_with_speed_none(s.drop_last(), speed);
    }
}

/// Taking the first participant off a sequence takes it off its speed's participants.
proof fn lemma_with_speed_first(s: Seq<(u64, u64)>, speed: u64)
    requires
        s.len() > 0,
    ensures
        with_speed(s, speed) == (if s[0].1 == speed {
            seq![s[0]]
        } else {
            Seq::<(u64, u64)>::empty()
        }) + with_speed(s.drop_first(), speed),
{
    assert(s =~= seq![s[0]] + s.drop_first());
    s.drop_first().lemma_filter_prepend(s[0], speed_is(speed));
}

/// Two sequences sorted fastest first with the same participants at every speed, in the same
/// order, are the same.
proof fn lemma_fastest_first_unique(a: Seq<(u64, u64)>, b: Seq<(u64, u64)>)
    requires
        fastest_first(a),
        fastest_first(b),
        forall|speed: u64| #[trigger] with_speed(a, speed) == with_speed(b, speed),
    ensures
        a == b,
    decreases a.len() + b.len(),
{
    if a.len() == 0 && b.len() == 0 {
        assert(a =~= b);
    } else if a.len() == 0 {
        lemma_with_speed_none(a, b[0].1);
        lemma_with_speed_first(b, b[0].1);
        assert(with_speed(a, b[0].1) == with_speed(b, b[0].1));
    } else if b.len() == 0 {
        lemma_with_speed_none(b, a[0].1);
        lemma_with_speed_first(a, a[0].1);
        assert(with_speed(a, a[0].1) == with_speed(b, a[0].1));
    } else {
        let m = a[0].1;
        lemma_with_speed_first(a, m);
        lemma_with_speed_first(b, m);
        if b[0].1 < m {
            assert forall|i: int| 0 <= i < b.len() implies b[i].1 != m by {
                if i > 0 {
                    assert(b[0].1 >= b[i].1);
                }
            }
            lemma_with_speed_none(b, m);
            assert(with_speed(a, m) == with_speed(b, m));
            assert(with_speed(a, m).len() > 0);
        } else if b[0].1 > m {
            let mb = b[0].1;
            assert forall|i: int| 0 <= i < a.len() implies a[i].1 != mb by {
                if i > 0 {
                    assert(a[0].1 >= a[i].1);
                }
            }
            lemma_with_speed_none(a, mb);
            lemma_with_speed_first(b, mb);
            assert(with_speed(a, mb) == with_speed(b, mb));
        } else {
            assert(with_speed(a, m) == with_speed(b, m));
            assert(with_speed(a, m)[0] == a[0]);
            assert(with_speed(b, m)[0] == b[0]);
            assert forall|speed: u64| #[trigger] with_speed(a.drop_first(), speed) == with_speed(b.drop_first(), speed) by {
                lemma_with_speed_first(a, speed);
                lemma_with_speed_first(b, speed);
                assert(with_speed(a, speed) == with_speed(b, speed));
                if speed == m {
                    assert(with_speed(a.drop_first(), speed) =~= with_speed(a, speed).drop_first());
                    assert(with_speed(b.drop_first(), speed) =~= with_speed(b, speed).drop_first());
                }
            }
            lemma_fastest_first_unique(a.drop_first(), b.drop_first());
            assert(a =~= seq![a[0]] + a.drop_first());
            assert(b =~= seq![b[0]] + b.drop_first());
        }
    }
}

/// A stable sort fastest first has exactly one result: the turn order of a battle is determined
/// by its participants, their speeds and their order (see [`setup_battle_order`]).
pub proof fn lemma_stable_speed_sort_unique(input: Seq<(u64, u64)>, a: Seq<(u64, u64)>, b: Seq<(u64, u64)>)
    requires
        stable_speed_sort(input, a),
        stable_speed_sort(input, b),
    ensures
        a == b,
{
    assert forall|speed: u64| #[trigger] with_speed(a, speed) == with_speed(b, speed) by {
        assert(with_speed(a, speed) == with_speed(input, speed));
        assert(with_speed(b, speed) == with_speed(input, speed));
    }
    lemma_fastest_first_unique(a, b);
}

/// Sorts participants (entity, speed key) fastest first; participants of equal speed keep
/// their order (a stable sort).
pub fn sort_by_speed(participants: &Vec<(u64, u64)>) -> (sorted: Vec<(u64, u64)>)
    ensures
        stable_speed_sort(participants@, sorted@),
{
    broadcast use Seq::filter_distributes_over_add, Seq::lemma_filter_push;
    let mut out: Vec<(u64, u64)> = Vec::new();
    let mut i: usize = 0;
    while i < participants.len()
        invariant
            0 <= i <= participants@.len(),
            fastest_first(out@),
            forall|speed: u64| #[trigger] with_speed(out@, speed) == with_speed(participants@.take(i as int), speed),
        decreases participants@.len() - i,
    {
        let x = participants[i];
        let mut p: usize = 0;
        while p < out.len() && out[p].1 >= x.1
            invariant
                0 <= p <= out@.len(),
                forall|k: int| 0 <= k < p ==> #[trigger] out@[k].1 >= x.1,
            decreases out@.len() - p,
        {
            p = p + 1;
        }
        let ghost before = out@;
        proof {
            assert forall|k: int| p <= k < before.len() implies #[trigger] before[k].1 < x.1 by {
                assert(before[p as int].1 < x.1);
                if k > p {
                    assert(before[p as int].1 >= before[k].1);
                }
            }
        }
        out.insert(p, x);
        proof {
            let left = before.subrange(0, p as int);
            let right = before.subrange(p as int, before.len() as int);
            assert(before =~= left + right);
            assert(out@ =~= left + seq![x] + right);
            assert(participants@.take(i + 1) =~= participants@.take(i as int).push(x));
            assert forall|speed: u64| #[trigger] with_speed(out@, speed) == with_speed(participants@.take(i + 1), speed) by {
                assert(with_speed(left + seq![x] + right, speed) == with_speed(left + seq![x], speed) + with_speed(right, speed));
                assert(with_speed(left + seq![x], speed) == with_speed(left, speed) + with_speed(seq![x], speed));
                assert(with_speed(before, speed) == with_speed(left, speed) + with_speed(right, speed));
                assert(seq![x] =~= Seq::<(u64, u64)>::empty().push(x));
                assert(with_speed(Seq::<(u64, u64)>::empty(), speed) =~= Seq::<(u64, u64)>::empty()) by {
                    reveal(Seq::filter);
                }
                assert(with_speed(seq![x], speed) == (if x.1 == speed { seq![x] } else { Seq::<(u64, u64)>::empty() })) by {
                    reveal(Seq::filter);
                    assert(seq![x].drop_last() =~= Seq::<(u64, u64)>::empty());
                    assert(Seq::<(u64, u64)>::empty().push(x) =~= seq![x]);
                }
                let prefix = participants@.take(i as int);
                assert(with_speed(prefix.push(x), speed) == (if x.1 == speed { with_speed(prefix, speed).push(x) } else { with_speed(prefix, speed) })) by {
                    reveal(Seq::filter);
                    assert(prefix.push(x).drop_last() =~= prefix);
                }
                if speed == x.1 {
                    lemma_with_speed_none(right, speed);
                    assert(with_speed(seq![x], speed) =~= seq![x]);
                    assert(with_speed(out@, speed) =~= with_speed(before, speed).push(x));
                } else {
                    assert(with_speed(seq![x], speed) =~= Seq::<(u64, u64)>::empty());
                    assert(with_speed(out@, speed) =~= with_speed(before, speed));
                }
            }
            assert forall|a: int, b: int| 0 <= a < b < out@.len() implies #[trigger] out@[a].1 >= #[trigger] out@[b].1 by {
                if a < p && b < p {
                    assert(out@[a] == before[a] && out@[b] == before[b]);
                } else if a < p && b == p {
                } else if a < p {
                    assert(out@[a] == before[a] && out@[b] == before[b - 1]);
                } else if a == p {
                    assert(out@[b] == before[b - 1]);
                } else {
                    assert(out@[a] == before[a - 1] && out@[b] == before[b - 1]);
                }
            }
        }
        i = i + 1;
    }
    proof {
        assert(participants@.take(i as int) =~= participants@);
    }
    out
}


/// Sets up the turn order at the start of a battle: the characters and then the enemies
/// (entity, speed key), sorted fastest first, equal speeds keeping this order. The index and
/// the `next` flag are left as they are.
pub fn setup_battle_order(turn_order: &mut TurnOrder, characters: &Vec<(u64, u64)>, enemies: &Vec<(u64, u64)>)
    ensures
        final(turn_order).current_index == old(turn_order).current_index,
        final(turn_order).next == old(turn_order).next,
        exists|sorted: Seq<(u64, u64)>|
            stable_speed_sort(characters@ + enemies@, sorted) && #[trigger] final(turn_order).order@ == sorted.map_values(
                |p: (u64, u64)| p.0,
            ),
{
    let mut participants: Vec<(u64, u64)> = Vec::new();
    let mut i: usize = 0;
    while i < characters.len()
        invariant
            0 <= i <= characters@.len(),
            participants@ == characters@.take(i as int),
        decreases characters@.len() - i,
    {
        participants.push(characters[i]);
        proof {
            assert(characters@.take(i + 1) =~= characters@.take(i as int).push(characters@[i as int]));
        }
        i = i + 1;
    }
    let mut k: usize = 0;
    while k < enemies.len()
        invariant
            0 <= k <= enemies@.len(),
            i == characters@.len(),
            participants@ == characters@ + enemies@.take(k as int),
        decreases enemies@.len() - k,
    {
        participants.push(enemies[k]);
        proof {
            assert(enemies@.take(k + 1) =~= enemies@.take(k as int).push(enemies@[k as int]));
            assert(characters@ + enemies@.take(k + 1) =~= (characters@ + enemies@.take(k as int)).push(enemies@[k as int]));
        }
        k = k + 1;
    }
    proof {
        assert(characters@.take(characters@.len() as int) =~= characters@);
        assert(enemies@.take(enemies@.len() as int) =~= enemies@);
    }
    let sorted = sort_by_speed(&participants);
    let mut order: Vec<u64> = Vec::new();
    let mut j: usize = 0;
    while j < sorted.len()
        invariant
            0 <= j <= sorted@.len(),
            order@ == sorted@.take(j as int).map_values(|p: (u64, u64)| p.0),
        decreases sorted@.len() - j,
    {
        order.push(sorted[j].0);
        proof {
            assert(sorted@.take(j + 1).map_values(|p: (u64, u64)| p.0) =~= sorted@.take(j as int).map_values(
                |p: (u64, u64)| p.0,
            ).push(sorted@[j as int].0));
        }
        j = j + 1;
    }
    proof {
        assert(sorted@.take(j as int) =~= sorted@);
    }
    turn_order.order = order;
}

/// The entity whose turn it is during the selection of an operation: the one before the
/// current index (which has already moved on), or the first when the index is 0.
pub fn turn_entity(turn_order: &TurnOrder) -> (r: Option<u64>)
    ensures
        ({
            let i = if turn_order.current_index > 0 { turn_order.current_index - 1 } else { 0 };
            r == (if i < turn_order.order@.len() { Some(turn_order.order@[i]) } else { None::<u64> })
        }),
{
    let mut offset: usize = 0;
    if turn_order.current_index > 0 {
        offset = 1;
    }
    let i = turn_order.current_index - offset;
    if i < turn_order.order.len() {
        Some(turn_order.order[i])
    } else {
        None
    }
}

/// Ends the turn after an attack: the next turn may begin. If no enemy is left, the characters
/// leave the battle too and `true` is returned: the battle is over.
pub fn end_attack_turn(turn_order: &mut TurnOrder, battle_members: &mut BattleCurrentEntities) -> (battle_over: bool)
    ensures
        final(turn_order).next,
        final(turn_order).order == old(turn_order).order,
        final(turn_order).current_index == old(turn_order).current_index,
        battle_over == (slot_contents(old(battle_members).enemies).dom() == Set::<usize>::empty()),
        slot_contents(final(battle_members).enemies) == slot_contents(old(battle_members).enemies),
        final(battle_members).need_patch == old(battle_members).need_patch,
        battle_over ==> slot_contents(final(battle_members).characters).dom() == Set::<usize>::empty(),
        !battle_over ==> slot_contents(final(battle_members).characters) == slot_contents(old(battle_members).characters),
{
    turn_order.next = true;
    if battle_members.enemies.is_empty() {
        battle_members.characters.clear();
        return true;
    }
    false
}

/// A character's attack can be carried out: a character has the turn and an operation is selected.
pub fn attack_ready(info: &TurnCurrentMemberInfo) -> (r: bool)
    ensures
        r == (info.character.is_some() && info.selected_operation.is_some()),
{
    info.character.is_some() && info.selected_operation.is_some()
}

/// Closes a character's attack once its damage is dealt: the character of the turn and the
/// selected operation are cleared (the prepared one stays), and the turn ends as in
/// `end_attack_turn`; `true` means the battle is over.
pub fn finish_character_attack(
    info: &mut TurnCurrentMemberInfo,
    turn_order: &mut TurnOrder,
    battle_members: &mut BattleCurrentEntities,
) -> (battle_over: bool)
    ensures
        *final(info) == (TurnCurrentMemberInfo {
            character: None,
            pre_operation: old(info).pre_operation,
            selected_operation: None,
        }),
        final(turn_order).next,
        final(turn_order).order == old(turn_order).order,
        final(turn_order).current_index == old(turn_order).current_index,
        battle_over == (slot_contents(old(battle_members).enemies).dom() == Set::<usize>::empty()),
        slot_contents(final(battle_members).enemies) == slot_contents(old(battle_members).enemies),
        final(battle_members).need_patch == old(battle_members).need_patch,
        battle_over ==> slot_contents(final(battle_members).characters).dom() == Set::<usize>::empty(),
        !battle_over ==> slot_contents(final(battle_members).characters) == slot_contents(old(battle_members).characters),
{
    info.character = None;
    info.selected_operation = None;
    end_attack_turn(turn_order, battle_members)
}

} // verus!
