//! What is read from and written to texts, and in what order things come.
use crate::clock::{clock_minute, digits_value, find, is_digit, number, piece, unsigned};
use crate::ordering::{insert_ordered, lemma_stable_sort, ranks, stable_sort};
use crate::startup::{
    asks_for_port, dist_from, escaped, escaped_char, persisted_winter_target, port_from,
    PersistedSettings,
};
use crate::state_machines::agile::{newest_first, PriceSlot};
use crate::text::decimal;
use vstd::prelude::*;

verus! {

/// What is written in decimal is read back as the same number, with or without a
/// plus sign, up to 65535.
pub proof fn law_numbers_are_read_back(n: nat)
    ensures
        n <= 65535 ==> number(decimal(n)) == Some(n as u16),
        n <= 65535 ==> number(seq!['+'] + decimal(n)) == Some(n as u16),
        n > 65535 ==> number(decimal(n)) is None,
{
    lemma_decimal(n);
    let plain = decimal(n);
    let signed = seq!['+'] + plain;
    assert(unsigned(plain) == plain) by {
        assert(is_digit(plain[0]));
    }
    assert(signed.skip(1) =~= plain);
}

proof fn lemma_decimal(n: nat)
    ensures
        decimal(n).len() > 0,
        forall|i: int| 0 <= i < decimal(n).len() ==> is_digit(#[trigger] decimal(n)[i]),
        digits_value(decimal(n)) == n,
    decreases n,
{
    if n < 10 {
        let one = decimal(n);
        assert(one.drop_last() =~= Seq::<char>::empty());
        assert(digits_value(one.drop_last()) == 0);
    } else {
        lemma_decimal(n / 10);
        let all = decimal(n);
        assert(all.drop_last() =~= decimal(n / 10));
    }
}

/// A text is no number where, behind a plus sign at most, it is empty or holds
/// anything but digits.
pub proof fn law_other_texts_are_no_numbers(text: Seq<char>, i: int)
    ensures
        text.len() == 0 ==> number(text) is None,
        text.len() == 1 && text[0] == '+' ==> number(text) is None,
        0 <= i < text.len() && !('0' <= text[i] && text[i] <= '9') && !(i == 0 && text[i] == '+')
            ==> number(text) is None,
{
    if 0 <= i < text.len() && !('0' <= text[i] && text[i] <= '9') && !(i == 0 && text[i] == '+') {
        let digits = unsigned(text);
        if text[0] == '+' {
            assert(digits[i - 1] == text[i]);
            assert(!is_digit(digits[i - 1]));
        } else {
            assert(digits[i] == text[i]);
            assert(!is_digit(digits[i]));
        }
    }
}

proof fn lemma_find(text: Seq<char>, sep: char, at: int, from: int)
    requires
        0 <= from <= at <= text.len(),
        forall|i: int| from <= i < at ==> text[i] != sep,
        at == text.len() || text[at] == sep,
    ensures
        find(text, sep, from) == at,
    decreases at - from,
{
    if from < at {
        lemma_find(text, sep, at, from + 1);
    }
}

/// A text is cut at every separator: what stands before the first is the first
/// piece, and what follows is cut in the same way.
pub proof fn law_texts_are_cut_at_separators(
    head: Seq<char>,
    sep: char,
    tail: Seq<char>,
    n: nat,
)
    requires
        forall|i: int| 0 <= i < head.len() ==> head[i] != sep,
    ensures
        piece(head, sep, 0) == Some(head),
        piece(head, sep, n + 1) is None,
        piece(head + seq![sep] + tail, sep, 0) == Some(head),
        piece(head + seq![sep] + tail, sep, n + 1) == piece(tail, sep, n),
{
    lemma_find(head, sep, head.len() as int, 0);
    assert(head.take(head.len() as int) =~= head);
    let text = head + seq![sep] + tail;
    lemma_find(text, sep, head.len() as int, 0);
    assert(text.take(head.len() as int) =~= head);
    assert(text.skip(head.len() as int + 1) =~= tail);
}

/// Whether a character stands nowhere in a text.
pub open spec fn free_of(text: Seq<char>, c: char) -> bool {
    forall|i: int| 0 <= i < text.len() ==> text[i] != c
}

/// Of a date, a blank and a time, the time counts: its hour and minute, each cut
/// off at a colon, give the minute of the day where they are numbers below 24
/// and 60.
pub proof fn law_clock_texts(
    date: Seq<char>,
    hour: Seq<char>,
    minute: Seq<char>,
    seconds: Seq<char>,
)
    requires
        free_of(date, ' '),
        free_of(hour, ' '),
        free_of(hour, ':'),
        free_of(minute, ' '),
        free_of(minute, ':'),
        free_of(seconds, ' '),
    ensures
        clock_minute(date + seq![' '] + (hour + seq![':'] + (minute + seq![':'] + seconds)))
            == match (number(hour), number(minute)) {
            (Some(h), Some(m)) => if h <= 23 && m <= 59 {
                Some((60 * h + m) as u16)
            } else {
                None
            },
            _ => None,
        },
        clock_minute(date) is None,
        clock_minute(date + seq![' '] + hour) is None,
{
    let behind = minute + seq![':'] + seconds;
    let time = hour + seq![':'] + behind;
    assert(free_of(time, ' ')) by {
        assert forall|i: int| 0 <= i < time.len() implies time[i] != ' ' by {
            if i < hour.len() {
                assert(time[i] == hour[i]);
            } else if i > hour.len() {
                assert(time[i] == behind[i - hour.len() - 1]);
                let k = i - hour.len() - 1;
                if k < minute.len() {
                    assert(behind[k] == minute[k]);
                } else if k > minute.len() {
                    assert(behind[k] == seconds[k - minute.len() - 1]);
                }
            }
        }
    }
    law_texts_are_cut_at_separators(date, ' ', time, 0);
    law_texts_are_cut_at_separators(time, ' ', Seq::empty(), 0);
    law_texts_are_cut_at_separators(hour, ':', behind, 0);
    law_texts_are_cut_at_separators(minute, ':', seconds, 0);
    law_texts_are_cut_at_separators(date, ' ', hour, 0);
    law_texts_are_cut_at_separators(hour, ' ', Seq::empty(), 0);
}

/// Whether the option stands at `i` of the arguments with a value behind it.
pub open spec fn stands_at(args: Seq<String>, i: int, option: Seq<char>) -> bool {
    0 <= i && i + 1 < args.len() && args[i]@ == option
}

/// The port is that of the first `--port` whose value is a number, and 7337
/// where there is none.
pub proof fn law_port_of_the_arguments(args: Seq<String>, from: int, i: int)
    requires
        0 <= from <= i,
        forall|j: int|
            from <= j < i ==> !(#[trigger] stands_at(args, j, "--port"@) && number(
                args[j + 1]@,
            ) is Some),
    ensures
        stands_at(args, i, "--port"@) && number(args[i + 1]@) is Some ==> Some(
            port_from(args, from),
        ) == number(args[i + 1]@),
        i >= args.len() ==> port_from(args, from) == 7337,
    decreases i - from,
{
    if from < i && from < args.len() {
        assert(!(stands_at(args, from, "--port"@) && number(args[from + 1]@) is Some));
        law_port_of_the_arguments(args, from + 1, i);
    }
}

/// The frontend's path is the value of the first `--dist`, and there is none
/// exactly where no `--dist` has a value.
pub proof fn law_dist_of_the_arguments(args: Seq<String>, from: int, i: int)
    requires
        0 <= from <= i,
        forall|j: int| from <= j < i ==> !#[trigger] stands_at(args, j, "--dist"@),
    ensures
        stands_at(args, i, "--dist"@) ==> dist_from(args, from) == Some(args[i + 1]@),
        i >= args.len() ==> dist_from(args, from) is None,
    decreases i - from,
{
    if from < i && from < args.len() {
        assert(!stands_at(args, from, "--dist"@));
        law_dist_of_the_arguments(args, from + 1, i);
    }
}

/// A port is asked for exactly where an argument is `--port`.
pub proof fn law_port_is_asked_for(args: Seq<String>, i: int)
    ensures
        0 <= i < args.len() && args[i]@ == "--port"@ ==> asks_for_port(args),
        (forall|j: int| 0 <= j < args.len() ==> (#[trigger] args[j])@ != "--port"@)
            ==> !asks_for_port(args),
{
    if 0 <= i < args.len() && args[i]@ == "--port"@ {
        assert(args[i]@ == "--port"@);
    }
}

/// Text is escaped character by character: five characters have an entity, and
/// every other stands for itself.
pub proof fn law_escaping_goes_by_characters(a: Seq<char>, b: Seq<char>, c: char)
    ensures
        escaped(a + b) == escaped(a) + escaped(b),
        escaped(seq![c]) == escaped_char(c),
        escaped(Seq::empty()) == Seq::<char>::empty(),
        escaped_char('&') =~= seq!['&', 'a', 'm', 'p', ';'],
        escaped_char('<') =~= seq!['&', 'l', 't', ';'],
        escaped_char('>') =~= seq!['&', 'g', 't', ';'],
        escaped_char('"') =~= seq!['&', 'q', 'u', 'o', 't', ';'],
        escaped_char('\'') =~= seq!['&', '#', '3', '9', ';'],
        c != '&' && c != '<' && c != '>' && c != '"' && c != '\'' ==> escaped_char(c) =~= seq![c],
    decreases b.len(),
{
    reveal_strlit("&amp;");
    reveal_strlit("&lt;");
    reveal_strlit("&gt;");
    reveal_strlit("&quot;");
    reveal_strlit("&#39;");
    if b.len() == 0 {
        assert(a + b =~= a);
        assert(escaped(a) + escaped(b) =~= escaped(a));
    } else {
        law_escaping_goes_by_characters(a, b.drop_last(), c);
        assert((a + b).drop_last() =~= a + b.drop_last());
        assert(escaped(a + b) =~= escaped(a) + escaped(b));
    }
    let one = seq![c];
    let none = Seq::<char>::empty();
    assert(one.drop_last() =~= none);
    assert(escaped(none) =~= none);
    assert(one.last() == c);
    assert(escaped(one) == escaped(none) + escaped_char(c));
    assert(escaped(one) =~= escaped_char(c));
}

/// The target saved by auto-winter comes back where both halves were persisted,
/// its state of charge kept to 8 bits.
pub proof fn law_saved_winter_target_comes_back(settings: PersistedSettings)
    ensures
        match (settings.auto_winter_saved_enable_target, settings.auto_winter_saved_target_soc) {
            (Some(enable), Some(soc)) => {
                &&& persisted_winter_target(settings) is Some
                &&& persisted_winter_target(settings)->0.enable_charge_target == enable
                &&& soc < 256 ==> persisted_winter_target(settings)->0.target_soc == soc
            },
            _ => persisted_winter_target(settings) is None,
        },
{
}

/// Sorted prices run from the latest start to the earliest, and of the same
/// start from the latest end to the earliest; none is lost or added, and those
/// of the same span stay as they stood.
pub proof fn law_prices_are_sorted(prices: Seq<PriceSlot>, from: i64, to: i64)
    ensures
        ({
            let sorted = stable_sort(prices, newest_first());
            let same = |p: PriceSlot| p.valid_from == from && p.valid_to == to;
            &&& sorted.to_multiset() == prices.to_multiset()
            &&& forall|i: int, j: int|
                0 <= i < j < sorted.len() ==> (#[trigger] sorted[i]).valid_from > (
                #[trigger] sorted[j]).valid_from || sorted[i].valid_from == sorted[j].valid_from
                    && sorted[i].valid_to >= sorted[j].valid_to
            &&& sorted.filter(same) == prices.filter(same)
        }),
{
    assert(ranks(newest_first()));
    lemma_stable_sort(prices, newest_first());
    let sorted = stable_sort(prices, newest_first());
    assert forall|i: int, j: int| 0 <= i < j < sorted.len() implies (
    #[trigger] sorted[i]).valid_from > (#[trigger] sorted[j]).valid_from || sorted[i].valid_from
        == sorted[j].valid_from && sorted[i].valid_to >= sorted[j].valid_to by {
        assert(!newest_first()(sorted[j], sorted[i]));
    }
    let same = |p: PriceSlot| p.valid_from == from && p.valid_to == to;
    lemma_sort_is_stable(prices, newest_first(), same);
}

proof fn lemma_insert_is_stable<T>(
    s: Seq<T>,
    x: T,
    precedes: spec_fn(T, T) -> bool,
    same: spec_fn(T) -> bool,
)
    requires
        forall|a: T, b: T| same(a) && same(b) ==> !#[trigger] precedes(a, b),
    ensures
        insert_ordered(s, x, precedes).filter(same) == s.push(x).filter(same),
    decreases s.len(),
{
    if s.len() > 0 && precedes(x, s.last()) {
        let rest = s.drop_last();
        lemma_insert_is_stable(rest, x, precedes, same);
        let inner = insert_ordered(rest, x, precedes);
        inner.lemma_filter_push(s.last(), same);
        rest.lemma_filter_push(x, same);
        rest.lemma_filter_push(s.last(), same);
        s.lemma_filter_push(x, same);
        assert(rest.push(s.last()) =~= s);
        assert(!(same(x) && same(s.last())));
    }
}

proof fn lemma_sort_is_stable<T>(
    s: Seq<T>,
    precedes: spec_fn(T, T) -> bool,
    same: spec_fn(T) -> bool,
)
    requires
        forall|a: T, b: T| same(a) && same(b) ==> !#[trigger] precedes(a, b),
    ensures
        stable_sort(s, precedes).filter(same) == s.filter(same),
    decreases s.len(),
{
    if s.len() > 0 {
        let rest = s.drop_last();
        lemma_sort_is_stable(rest, precedes, same);
        let sorted = stable_sort(rest, precedes);
        lemma_insert_is_stable(sorted, s.last(), precedes, same);
        sorted.lemma_filter_push(s.last(), same);
        rest.lemma_filter_push(s.last(), same);
        assert(rest.push(s.last()) =~= s);
    }
}

} // verus!
