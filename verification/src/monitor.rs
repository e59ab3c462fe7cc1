use vstd::prelude::*;
use vstd::string::*;
use vstd::hash_set::StringHashSet;

verus! {

/// The notice sent for a new transaction of a monitored address.
pub open spec fn transaction_text(signature: Seq<char>) -> Seq<char> {
    "🔄 New transaction detected\nSignature: "@ + signature
}

/// The notice sent for a Raydium transaction, with its Solscan link.
pub open spec fn raydium_transaction_text(signature: Seq<char>) -> Seq<char> {
    "🔄 Raydium Transaction\nSignature: "@ + signature + "\nView on Solscan: https://solscan.io/tx/"@
        + signature
}

/// The notice for a new transaction with this (first) signature.
pub fn transaction_message(signature: &str) -> (text: String)
    ensures
        text@ == transaction_text(signature@),
{
    let text = "🔄 New transaction detected\nSignature: ".to_owned();
    text.concat(signature)
}

/// The notice for a Raydium transaction with this signature.
pub fn raydium_transaction_message(signature: &str) -> (text: String)
    ensures
        text@ == raydium_transaction_text(signature@),
{
    let text = "🔄 Raydium Transaction\nSignature: ".to_owned();
    let text = text.concat(signature);
    let text = text.concat("\nView on Solscan: https://solscan.io/tx/");
    text.concat(signature)
}

/// The notice carries the whole signature: it is the fixed heading, then
/// the signature itself, whatever its length.
pub proof fn lemma_transaction_text_has_signature(signature: Seq<char>)
    ensures
        transaction_text(signature).len() == "🔄 New transaction detected\nSignature: "@.len()
            + signature.len(),
        transaction_text(signature).subrange(
            0,
            "🔄 New transaction detected\nSignature: "@.len() as int,
        ) == "🔄 New transaction detected\nSignature: "@,
        transaction_text(signature).subrange(
            "🔄 New transaction detected\nSignature: "@.len() as int,
            transaction_text(signature).len() as int,
        ) == signature,
{
    let p = "🔄 New transaction detected\nSignature: "@;
    let t = transaction_text(signature);
    assert(t.subrange(0, p.len() as int) =~= p);
    assert(t.subrange(p.len() as int, t.len() as int) =~= signature);
}

/// Two transactions with different signatures get different notices.
pub proof fn lemma_transaction_text_distinct(first: Seq<char>, second: Seq<char>)
    requires
        first != second,
    ensures
        transaction_text(first) != transaction_text(second),
{
    lemma_transaction_text_has_signature(first);
    lemma_transaction_text_has_signature(second);
}

/// The Raydium notice names the whole signature twice: right after its
/// heading, and at the end of the Solscan link.
pub proof fn lemma_raydium_text_has_signature(signature: Seq<char>)
    ensures
        raydium_transaction_text(signature).len() == "🔄 Raydium Transaction\nSignature: "@.len()
            + "\nView on Solscan: https://solscan.io/tx/"@.len() + 2 * signature.len(),
        raydium_transaction_text(signature).subrange(
            "🔄 Raydium Transaction\nSignature: "@.len() as int,
            ("🔄 Raydium Transaction\nSignature: "@.len() + signature.len()) as int,
        ) == signature,
        raydium_transaction_text(signature).subrange(
            raydium_transaction_text(signature).len() - signature.len(),
            raydium_transaction_text(signature).len() as int,
        ) == signature,
{
    let p = "🔄 Raydium Transaction\nSignature: "@;
    let t = raydium_transaction_text(signature);
    assert(t.subrange(p.len() as int, (p.len() + signature.len()) as int) =~= signature);
    assert(t.subrange(t.len() - signature.len(), t.len() as int) =~= signature);
}

/// Going through a batch of signatures in order with the set `seen` of
/// signatures already handled: the signatures handled now (each new one, at
/// its first occurrence) and the set afterwards.
pub open spec fn select_new(seen: Set<Seq<char>>, batch: Seq<Seq<char>>) -> (
    Seq<Seq<char>>,
    Set<Seq<char>>,
)
    decreases batch.len(),
{
    if batch.len() == 0 {
        (Seq::empty(), seen)
    } else {
        let (out, now) = select_new(seen, batch.drop_last());
        if now.contains(batch.last()) {
            (out, now)
        } else {
            (out.push(batch.last()), now.insert(batch.last()))
        }
    }
}

/// The texts of a vector of strings.
pub open spec fn texts(v: Seq<String>) -> Seq<Seq<char>> {
    v.map_values(|s: String| s@)
}

/// The signatures a monitor has already handled, as a set of texts.
pub struct SignatureTracker {
    processed: StringHashSet,
}

impl SignatureTracker {
    /// The signatures handled so far.
    pub closed spec fn seen(&self) -> Set<Seq<char>> {
        self.processed@
    }

    /// Nothing handled yet.
    pub fn new() -> (t: SignatureTracker)
        ensures
            t.seen() == Set::<Seq<char>>::empty(),
    {
        SignatureTracker { processed: StringHashSet::new() }
    }

    /// Whether the signature was handled already.
    pub fn contains(&self, signature: &String) -> (b: bool)
        ensures
            b == self.seen().contains(signature@),
    {
        self.processed.contains(signature.as_str())
    }

    /// Takes a fetched batch of signatures: returns, in batch order, those
    /// not handled before (each once), and records the whole batch as
    /// handled.
    pub fn select_new(&mut self, batch: &Vec<String>) -> (fresh: Vec<String>)
        ensures
            (texts(fresh@), final(self).seen()) == select_new(old(self).seen(), texts(batch@)),
    {
        let ghost seen0 = self.seen();
        let mut fresh: Vec<String> = Vec::new();
        let mut i: usize = 0;
        assert(texts(batch@).take(0) =~= Seq::<Seq<char>>::empty());
        assert(texts(fresh@) =~= Seq::<Seq<char>>::empty());
        while i < batch.len()
            invariant
                i <= batch@.len(),
                (texts(fresh@), self.seen()) == select_new(seen0, texts(batch@).take(i as int)),
            decreases batch@.len() - i,
        {
            let sig = &batch[i];
            let ghost prefix = texts(batch@).take(i as int);
            assert(texts(batch@).take(i + 1).drop_last() =~= prefix);
            assert(texts(batch@).take(i + 1).last() == sig@);
            if !self.processed.contains(sig.as_str()) {
                let ghost fresh_before = fresh@;
                self.processed.insert(sig.clone());
                fresh.push(sig.clone());
                assert(texts(fresh@) =~= texts(fresh_before).push(sig@));
            }
            i = i + 1;
        }
        assert(texts(batch@).take(batch@.len() as int) =~= texts(batch@));
        fresh
    }
}

/// After a batch, the handled set is the earlier set together with every
/// signature of the batch.
pub proof fn lemma_select_records_batch(seen: Set<Seq<char>>, batch: Seq<Seq<char>>)
    ensures
        select_new(seen, batch).1 == seen + batch.to_set(),
    decreases batch.len(),
{
    if batch.len() == 0 {
        assert(batch.to_set() =~= Set::<Seq<char>>::empty());
        assert(seen + batch.to_set() =~= seen);
    } else {
        lemma_select_records_batch(seen, batch.drop_last());
        assert(batch =~= batch.drop_last().push(batch.last()));
        batch.drop_last().lemma_push_to_set_commute(batch.last());
    }
}

/// The signatures handled from a batch are new: none was seen before, each
/// comes from the batch, and none is handled twice.
pub proof fn lemma_select_only_new(seen: Set<Seq<char>>, batch: Seq<Seq<char>>)
    ensures
        select_new(seen, batch).0.no_duplicates(),
        forall|i: int|
            0 <= i < select_new(seen, batch).0.len() ==> !seen.contains(
                #[trigger] select_new(seen, batch).0[i],
            ) && batch.contains(select_new(seen, batch).0[i]),
        forall|i: int|
            0 <= i < select_new(seen, batch).0.len() ==> select_new(seen, batch).1.contains(
                #[trigger] select_new(seen, batch).0[i],
            ),
    decreases batch.len(),
{
    if batch.len() > 0 {
        lemma_select_only_new(seen, batch.drop_last());
        lemma_select_records_batch(seen, batch.drop_last());
        let (out, now) = select_new(seen, batch.drop_last());
        assert forall|i: int| 0 <= i < out.len() implies batch.contains(#[trigger] out[i]) by {
            let k = choose|k: int| 0 <= k < batch.drop_last().len() && batch.drop_last()[k] == out[i];
            assert(batch[k] == out[i]);
        }
        if !now.contains(batch.last()) {
            assert(batch[batch.len() - 1] == batch.last());
            let res = out.push(batch.last());
            assert forall|i: int, j: int| 0 <= i < res.len() && 0 <= j < res.len() && i != j implies res[i] != res[j] by {
                if i < out.len() && j < out.len() {
                } else if i == out.len() {
                    assert(now.contains(out[j]));
                } else {
                    assert(now.contains(out[i]));
                }
            }
        }
    }
}

/// No new signature is missed: every signature of the batch that was not
/// seen before is among those handled, whatever it holds.
pub proof fn lemma_select_complete(seen: Set<Seq<char>>, batch: Seq<Seq<char>>)
    ensures
        forall|i: int|
            0 <= i < batch.len() && !seen.contains(#[trigger] batch[i]) ==> select_new(
                seen,
                batch,
            ).0.contains(batch[i]),
    decreases batch.len(),
{
    if batch.len() > 0 {
        let front = batch.drop_last();
        lemma_select_complete(seen, front);
        lemma_select_records_batch(seen, front);
        let (out, now) = select_new(seen, front);
        assert forall|i: int|
            0 <= i < batch.len() && !seen.contains(#[trigger] batch[i]) implies select_new(
                seen,
                batch,
            ).0.contains(batch[i]) by {
            if i < batch.len() - 1 {
                assert(front[i] == batch[i]);
                let k = choose|k: int| 0 <= k < out.len() && out[k] == batch[i];
                if !now.contains(batch.last()) {
                    assert(out.push(batch.last())[k] == batch[i]);
                }
            } else {
                assert(batch[i] == batch.last());
                if now.contains(batch.last()) {
                    assert(front.to_set().contains(batch.last()));
                    let k = choose|k: int| 0 <= k < front.len() && front[k] == batch.last();
                    assert(!seen.contains(front[k]));
                } else {
                    assert(out.push(batch.last())[out.len() as int] == batch[i]);
                }
            }
        }
    }
}

/// The handled signatures come in batch order: wherever a later one occurs
/// in the batch, every earlier one occurs before it.
pub proof fn lemma_select_in_order(seen: Set<Seq<char>>, batch: Seq<Seq<char>>)
    ensures
        forall|a: int, b: int, j: int|
            #![trigger select_new(seen, batch).0[a], select_new(seen, batch).0[b], batch[j]]
            0 <= a < b < select_new(seen, batch).0.len() && 0 <= j < batch.len() && batch[j]
                == select_new(seen, batch).0[b] ==> batch.take(j).contains(
                select_new(seen, batch).0[a],
            ),
    decreases batch.len(),
{
    if batch.len() > 0 {
        let front = batch.drop_last();
        lemma_select_in_order(seen, front);
        lemma_select_records_batch(seen, front);
        lemma_select_only_new(seen, front);
        let (out, now) = select_new(seen, front);
        assert forall|a: int, b: int, j: int|
            #![trigger select_new(seen, batch).0[a], select_new(seen, batch).0[b], batch[j]]
            0 <= a < b < select_new(seen, batch).0.len() && 0 <= j < batch.len() && batch[j]
                == select_new(seen, batch).0[b] implies batch.take(j).contains(
                select_new(seen, batch).0[a],
            ) by {
            let res = select_new(seen, batch).0;
            assert(res[a] == out[a]);
            assert(front.contains(out[a]));
            let ka = choose|ka: int| 0 <= ka < front.len() && front[ka] == out[a];
            if j < batch.len() - 1 {
                assert(front[j] == batch[j]);
                if b < out.len() {
                    assert(res[b] == out[b]);
                    assert(front.take(j).contains(out[a]));
                    let k = choose|k: int| 0 <= k < j && front.take(j)[k] == out[a];
                    assert(batch.take(j)[k] == res[a]);
                } else {
                    assert(!now.contains(batch.last()));
                    assert(res[b] == batch.last());
                    assert(front.to_set().contains(front[j]));
                }
            } else {
                assert(batch.take(j)[ka] == res[a]);
            }
        }
    }
}

/// Handing the same batch over twice: the second time nothing is new and
/// the handled set stays as it was.
pub proof fn lemma_select_twice(seen: Set<Seq<char>>, batch: Seq<Seq<char>>)
    ensures
        select_new(select_new(seen, batch).1, batch).0 == Seq::<Seq<char>>::empty(),
        select_new(select_new(seen, batch).1, batch).1 == select_new(seen, batch).1,
{
    lemma_select_records_batch(seen, batch);
    lemma_select_covered(select_new(seen, batch).1, batch);
}

/// A batch whose signatures were all seen yields nothing new.
pub proof fn lemma_select_covered(seen: Set<Seq<char>>, batch: Seq<Seq<char>>)
    requires
        forall|i: int| 0 <= i < batch.len() ==> seen.contains(#[trigger] batch[i]),
    ensures
        select_new(seen, batch).0 == Seq::<Seq<char>>::empty(),
        select_new(seen, batch).1 == seen,
    decreases batch.len(),
{
    if batch.len() > 0 {
        assert forall|i: int| 0 <= i < batch.drop_last().len() implies seen.contains(#[trigger] batch.drop_last()[i]) by {
            assert(batch.drop_last()[i] == batch[i]);
        }
        lemma_select_covered(seen, batch.drop_last());
        assert(seen.contains(batch[batch.len() - 1]));
    }
}

} // verus!
