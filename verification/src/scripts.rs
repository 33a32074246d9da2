//! The scripts to look for in each block: those of the on-chain wallet's keychains, and those that
//! Lightning channels have registered.
use bdk_chain::keychain_txout::KeychainTxOutIndex;
use bdk_wallet::KeychainKind;
use vstd::prelude::*;

verus! {

/// `bdk_wallet::KeychainKind`: external or internal.
#[verifier::external_type_specification]
#[verifier::external_body]
pub struct ExKeychainKind(bdk_wallet::KeychainKind);

/// `bdk_chain::keychain_txout::KeychainTxOutIndex`: per keychain, the scripts that its descriptor
/// derives and how many of them are revealed.
#[verifier::external_type_specification]
#[verifier::external_body]
#[verifier::reject_recursive_types(K)]
pub struct ExKeychainTxOutIndex<K>(bdk_chain::keychain_txout::KeychainTxOutIndex<K>);

/// The two keychains of an on-chain wallet.
#[derive(Clone, Copy, Debug, PartialEq, Eq, Structural)]
pub enum Keychain {
    /// The keychain of the addresses that are given out.
    External,
    /// The keychain of the change.
    Internal,
}

/// All scripts that each keychain of an index derives, in derivation order. A keychain without a
/// descriptor is not in the map.
pub uninterp spec fn keychain_scripts(index: KeychainTxOutIndex<KeychainKind>) -> Map<
    Keychain,
    Seq<Seq<u8>>,
>;

/// The last revealed derivation index of each keychain. A keychain of which nothing is revealed is
/// not in the map.
pub uninterp spec fn keychain_last_revealed(index: KeychainTxOutIndex<KeychainKind>) -> Map<
    Keychain,
    u32,
>;

/// The number of scripts that an index looks ahead of the last revealed one.
pub uninterp spec fn keychain_lookahead(index: KeychainTxOutIndex<KeychainKind>) -> u32;

/// What a map holds for a key.
pub open spec fn entry<V>(map: Map<Keychain, V>, keychain: Keychain) -> Option<V> {
    if map.dom().contains(keychain) {
        Some(map[keychain])
    } else {
        None
    }
}

/// Calls `KeychainTxOutIndex::last_revealed_indices`: the last revealed derivation index of a
/// keychain; `None` where nothing is revealed.
#[verifier::external_body]
fn last_revealed(index: &KeychainTxOutIndex<KeychainKind>, keychain: Keychain) -> (revealed: Option<
    u32,
>)
    ensures
        revealed == entry(keychain_last_revealed(*index), keychain),
{
    let kind = match keychain {
        Keychain::External => KeychainKind::External,
        Keychain::Internal => KeychainKind::Internal,
    };
    index.last_revealed_indices().get(&kind).copied()
}

/// Calls `KeychainTxOutIndex::lookahead`: the lookahead that the index was made with.
#[verifier::external_body]
fn lookahead(index: &KeychainTxOutIndex<KeychainKind>) -> (lookahead: u32)
    ensures
        lookahead == keychain_lookahead(*index),
{
    index.lookahead()
}

/// The most scripts that a keychain can derive: one per unhardened BIP 32 index.
pub open spec fn derivable_scripts() -> nat {
    0x8000_0000
}

/// Some scripts as sequences of bytes.
pub open spec fn bytes_of(scripts: Seq<Vec<u8>>) -> Seq<Seq<u8>> {
    scripts.map_values(|script: Vec<u8>| script@)
}

/// The first `n` scripts, or all where there are fewer.
pub open spec fn first_scripts(scripts: Seq<Seq<u8>>, n: nat) -> Seq<Seq<u8>> {
    if n < scripts.len() {
        scripts.take(n as int)
    } else {
        scripts
    }
}

/// Calls `KeychainTxOutIndex::unbounded_spk_iter` and takes the first `n` scripts, in derivation
/// order; all of them where there are fewer, which is at most one per unhardened index; `None`
/// where the keychain has no descriptor. Only scripts that the index has derived itself, the
/// revealed ones and the lookahead, are sure to be derivable.
#[verifier::external_body]
fn derive_scripts(
    index: &KeychainTxOutIndex<KeychainKind>,
    keychain: Keychain,
    n: u32,
) -> (scripts: Option<Vec<Vec<u8>>>)
    requires
        n <= peek_bound(
            entry(keychain_last_revealed(*index), keychain),
            keychain_lookahead(*index),
        ),
    ensures
        match scripts {
            Some(derived) => entry(keychain_scripts(*index), keychain) matches Some(all)
                && all.len() <= derivable_scripts() && bytes_of(derived@) == first_scripts(
                all,
                n as nat,
            ),
            None => entry(keychain_scripts(*index), keychain) is None,
        },
{
    let kind = match keychain {
        Keychain::External => KeychainKind::External,
        Keychain::Internal => KeychainKind::Internal,
    };
    index.unbounded_spk_iter(kind).map(
        |iter| iter.take(n as usize).map(|(_, script)| script.to_bytes()).collect(),
    )
}

/// How many scripts of a keychain to look for: every revealed one, and the lookahead beyond.
pub open spec fn peek_bound(last_revealed: Option<u32>, lookahead: u32) -> nat {
    match last_revealed {
        Some(last) => last as nat + 1 + lookahead as nat,
        None => lookahead as nat,
    }
}

/// The scripts of one keychain to look for.
pub open spec fn peeked(
    scripts: Map<Keychain, Seq<Seq<u8>>>,
    revealed: Map<Keychain, u32>,
    lookahead: u32,
    keychain: Keychain,
) -> Seq<Seq<u8>> {
    match entry(scripts, keychain) {
        Some(all) => first_scripts(all, peek_bound(entry(revealed, keychain), lookahead)),
        None => Seq::empty(),
    }
}

/// The scripts of an index to look for, those of the external keychain first.
pub open spec fn peeked_scripts(index: KeychainTxOutIndex<KeychainKind>) -> Seq<Seq<u8>> {
    let scripts = keychain_scripts(index);
    let revealed = keychain_last_revealed(index);
    let lookahead = keychain_lookahead(index);
    peeked(scripts, revealed, lookahead, Keychain::External) + peeked(
        scripts,
        revealed,
        lookahead,
        Keychain::Internal,
    )
}

/// How many scripts of a keychain to derive: as [`peek_bound`] says, but no more than there are.
pub fn scripts_to_derive(last_revealed: Option<u32>, lookahead: u32) -> (n: u32)
    ensures
        n == if peek_bound(last_revealed, lookahead) < derivable_scripts() {
            peek_bound(last_revealed, lookahead)
        } else {
            derivable_scripts()
        },
{
    let bound: u64 = match last_revealed {
        Some(last) => last as u64 + 1 + lookahead as u64,
        None => lookahead as u64,
    };
    if bound < 0x8000_0000 {
        bound as u32
    } else {
        0x8000_0000
    }
}

fn peek_keychain(index: &KeychainTxOutIndex<KeychainKind>, keychain: Keychain) -> (scripts: Vec<
    Vec<u8>,
>)
    ensures
        bytes_of(scripts@) == peeked(
            keychain_scripts(*index),
            keychain_last_revealed(*index),
            keychain_lookahead(*index),
            keychain,
        ),
{
    let n: u32 = scripts_to_derive(last_revealed(index, keychain), lookahead(index));
    match derive_scripts(index, keychain, n) {
        Some(scripts) => scripts,
        None => {
            let none: Vec<Vec<u8>> = Vec::new();
            assert(bytes_of(none@) =~= Seq::empty());
            none
        },
    }
}

/// SPKs to scan for on-chain wallet sync: every revealed key plus the configured
/// lookahead window per keychain.
pub fn peek_keychain_scripts(index: &KeychainTxOutIndex<KeychainKind>) -> (scripts: Vec<Vec<u8>>)
    ensures
        bytes_of(scripts@) == peeked_scripts(*index),
{
    let mut scripts: Vec<Vec<u8>> = peek_keychain(index, Keychain::External);
    let mut internal: Vec<Vec<u8>> = peek_keychain(index, Keychain::Internal);
    scripts.append(&mut internal);
    assert(bytes_of(scripts@) =~= peeked_scripts(*index));
    scripts
}

/// No revealed script goes unwatched: each derivation index up to the last revealed one is among
/// the scripts to look for, and so is the whole lookahead window after it.
pub proof fn revealed_scripts_are_peeked(
    scripts: Map<Keychain, Seq<Seq<u8>>>,
    revealed: Map<Keychain, u32>,
    lookahead: u32,
    keychain: Keychain,
    i: int,
)
    requires
        scripts.dom().contains(keychain),
        0 <= i < scripts[keychain].len(),
        i < lookahead || (revealed.dom().contains(keychain) && i <= revealed[keychain] + lookahead),
    ensures
        peeked(scripts, revealed, lookahead, keychain).contains(scripts[keychain][i]),
{
    let found = peeked(scripts, revealed, lookahead, keychain);
    assert(found[i] == scripts[keychain][i]);
}

/// Whether two scripts are the same bytes.
fn same_script(a: &Vec<u8>, b: &Vec<u8>) -> (same: bool)
    ensures
        same == (a@ == b@),
{
    if a.len() != b.len() {
        return false;
    }
    let mut i: usize = 0;
    while i < a.len()
        invariant
            i <= a@.len(),
            a@.len() == b@.len(),
            forall|j: int| 0 <= j < i ==> a@[j] == b@[j],
        decreases a@.len() - i,
    {
        if a[i] != b[i] {
            return false;
        }
        i += 1;
    }
    assert(a@ =~= b@);
    true
}

/// Scripts registered for Lightning channel monitoring, each of them once.
pub struct ScriptRegistry {
    scripts: Vec<Vec<u8>>,
}

impl View for ScriptRegistry {
    type V = Seq<Seq<u8>>;

    closed spec fn view(&self) -> Seq<Seq<u8>> {
        bytes_of(self.scripts@)
    }
}

/// The registry's scripts after one more registration.
pub open spec fn registered(scripts: Seq<Seq<u8>>, script: Seq<u8>) -> Seq<Seq<u8>> {
    if scripts.contains(script) {
        scripts
    } else {
        scripts.push(script)
    }
}

impl ScriptRegistry {
    #[verifier::type_invariant]
    spec fn no_script_twice(self) -> bool {
        self@.no_duplicates()
    }

    /// A registry without scripts.
    pub fn new() -> (registry: ScriptRegistry)
        ensures
            registry@ == Seq::<Seq<u8>>::empty(),
    {
        let scripts: Vec<Vec<u8>> = Vec::new();
        assert(bytes_of(scripts@) =~= Seq::empty());
        ScriptRegistry { scripts }
    }

    /// Whether a script is registered.
    pub fn contains(&self, script: &Vec<u8>) -> (found: bool)
        ensures
            found == self@.contains(script@),
    {
        let mut i: usize = 0;
        while i < self.scripts.len()
            invariant
                i <= self.scripts@.len(),
                self@ == bytes_of(self.scripts@),
                forall|j: int| 0 <= j < i ==> self@[j] != script@,
            decreases self.scripts@.len() - i,
        {
            assert(self@[i as int] == self.scripts@[i as int]@);
            if same_script(&self.scripts[i], script) {
                return true;
            }
            i += 1;
        }
        false
    }

    /// Register a script. Registering it again changes nothing.
    pub fn insert(&mut self, script: Vec<u8>)
        ensures
            final(self)@ == registered(old(self)@, script@),
            final(self)@.no_duplicates(),
    {
        proof {
            use_type_invariant(&*self);
        }
        if self.contains(&script) {
            return;
        }
        let mut scripts: Vec<Vec<u8>> = Vec::new();
        assert(bytes_of(scripts@) =~= Seq::empty());
        std::mem::swap(&mut scripts, &mut self.scripts);
        let ghost before = bytes_of(scripts@);
        let ghost bytes = script@;
        scripts.push(script);
        assert(bytes_of(scripts@) =~= before.push(bytes));
        self.scripts = scripts;
    }

    /// The union of the keychain scripts and the registered scripts, the former first.
    pub fn combine(&self, keychain: Vec<Vec<u8>>) -> (scripts: Vec<Vec<u8>>)
        ensures
            bytes_of(scripts@) == bytes_of(keychain@) + self@,
    {
        let ghost before = bytes_of(keychain@);
        let mut scripts: Vec<Vec<u8>> = keychain;
        let mut i: usize = 0;
        assert(before + self@.take(0) =~= before);
        while i < self.scripts.len()
            invariant
                i <= self.scripts@.len(),
                self@ == bytes_of(self.scripts@),
                bytes_of(scripts@) == before + self@.take(i as int),
            decreases self.scripts@.len() - i,
        {
            let ghost so_far = scripts@;
            let script: Vec<u8> = self.scripts[i].clone();
            assert(script@ =~= self.scripts@[i as int]@);
            scripts.push(script);
            assert(bytes_of(scripts@) =~= bytes_of(so_far).push(self@[i as int]));
            assert(self@.take(i + 1) =~= self@.take(i as int).push(self@[i as int]));
            assert(bytes_of(scripts@) =~= before + self@.take(i + 1));
            i += 1;
        }
        assert(self@.take(i as int) =~= self@);
        scripts
    }

    /// Build the union of the keychain scripts to look for and the registered scripts, to match
    /// each incoming filter against.
    pub fn combined_scripts(&self, index: &KeychainTxOutIndex<KeychainKind>) -> (scripts: Vec<
        Vec<u8>,
    >)
        ensures
            bytes_of(scripts@) == peeked_scripts(*index) + self@,
    {
        self.combine(peek_keychain_scripts(index))
    }
}

/// Registering is idempotent, keeps what was registered, and makes no difference to other scripts:
/// after it, the registered scripts are the former ones and the new one.
pub proof fn registering_adds_one_script(scripts: Seq<Seq<u8>>, script: Seq<u8>, other: Seq<u8>)
    ensures
        registered(scripts, script).contains(other) <==> scripts.contains(other) || other == script,
        registered(registered(scripts, script), script) == registered(scripts, script),
{
    let after = registered(scripts, script);
    if !scripts.contains(script) {
        assert(after[scripts.len() as int] == script);
        if scripts.contains(other) {
            let i = choose|i: int| 0 <= i < scripts.len() && scripts[i] == other;
            assert(after[i] == other);
        }
    }
}

/// Every registered script is matched against every filter, whatever the wallet holds.
pub proof fn registered_scripts_are_combined(
    keychain: Seq<Seq<u8>>,
    registry: Seq<Seq<u8>>,
    script: Seq<u8>,
)
    ensures
        (keychain + registry).contains(script) <==> keychain.contains(script)
            || registry.contains(script),
{
    let all = keychain + registry;
    if keychain.contains(script) {
        let i = choose|i: int| 0 <= i < keychain.len() && keychain[i] == script;
        assert(all[i] == script);
    }
    if registry.contains(script) {
        let i = choose|i: int| 0 <= i < registry.len() && registry[i] == script;
        assert(all[keychain.len() + i] == script);
    }
}

/// Whether a derivation index is one to look for: up to the last revealed one and as many beyond as
/// the lookahead says, or, where none is revealed, below the lookahead.
pub open spec fn is_watched(last_revealed: Option<u32>, lookahead: u32, i: int) -> bool {
    match last_revealed {
        Some(last) => 0 <= i <= last + lookahead,
        None => 0 <= i < lookahead,
    }
}

/// The watched scripts of both keychains are in the list to look for.
proof fn both_keychains_are_peeked(
    index: KeychainTxOutIndex<KeychainKind>,
    keychain: Keychain,
    i: int,
)
    requires
        keychain_scripts(index).dom().contains(keychain),
        0 <= i < keychain_scripts(index)[keychain].len(),
        keychain_last_revealed(index).dom().contains(keychain) ==> i
            <= keychain_last_revealed(index)[keychain] + keychain_lookahead(index),
        !keychain_last_revealed(index).dom().contains(keychain) ==> i < keychain_lookahead(index),
    ensures
        peeked_scripts(index).contains(keychain_scripts(index)[keychain][i]),
{
    let external = peeked(
        keychain_scripts(index),
        keychain_last_revealed(index),
        keychain_lookahead(index),
        Keychain::External,
    );
    match keychain {
        Keychain::External => {
            assert(peeked_scripts(index)[i] == keychain_scripts(index)[keychain][i]);
        },
        Keychain::Internal => {
            assert(peeked_scripts(index)[external.len() + i] == keychain_scripts(
                index,
            )[keychain][i]);
        },
    }
}

/// Every script of either keychain is returned whose derivation index lies up to the last revealed
/// one plus the lookahead, or below the lookahead where none is revealed.
pub proof fn every_watched_script_is_returned(
    index: KeychainTxOutIndex<KeychainKind>,
    keychain: Keychain,
    i: int,
    scripts: Vec<Vec<u8>>,
)
    requires
        call_ensures(peek_keychain_scripts, (&index,), scripts),
        keychain_scripts(index).dom().contains(keychain),
        0 <= i < keychain_scripts(index)[keychain].len(),
        keychain_last_revealed(index).dom().contains(keychain) ==> i
            <= keychain_last_revealed(index)[keychain] + keychain_lookahead(index),
        !keychain_last_revealed(index).dom().contains(keychain) ==> i < keychain_lookahead(index),
    ensures
        exists|j: int|
            0 <= j < scripts@.len() && (#[trigger] scripts@[j])@ == keychain_scripts(
                index,
            )[keychain][i],
{
    both_keychains_are_peeked(index, keychain, i);
    let script = keychain_scripts(index)[keychain][i];
    let j = choose|j: int| 0 <= j < peeked_scripts(index).len() && peeked_scripts(index)[j]
        == script;
    assert(bytes_of(scripts@)[j] == scripts@[j]@);
}

/// No other script is returned: each one is a script of one of the keychains, at a derivation index
/// to look for; and those of the external keychain come first, in derivation order.
pub proof fn only_watched_scripts_are_returned(
    index: KeychainTxOutIndex<KeychainKind>,
    scripts: Vec<Vec<u8>>,
    j: int,
)
    requires
        call_ensures(peek_keychain_scripts, (&index,), scripts),
        0 <= j < scripts@.len(),
    ensures
        exists|keychain: Keychain, i: int|
            {
                &&& keychain_scripts(index).dom().contains(keychain)
                &&& 0 <= i < keychain_scripts(index)[keychain].len()
                &&& i <= j
                &&& keychain is External ==> i == j
                &&& keychain_last_revealed(index).dom().contains(keychain) ==> i
                    <= keychain_last_revealed(index)[keychain] + keychain_lookahead(index)
                &&& !keychain_last_revealed(index).dom().contains(keychain) ==> i
                    < keychain_lookahead(index)
                &&& scripts@[j]@ == #[trigger] keychain_scripts(index)[keychain][i]
            },
{
    let all = keychain_scripts(index);
    let external = peeked(
        all,
        keychain_last_revealed(index),
        keychain_lookahead(index),
        Keychain::External,
    );
    let internal = peeked(
        all,
        keychain_last_revealed(index),
        keychain_lookahead(index),
        Keychain::Internal,
    );
    assert(bytes_of(scripts@)[j] == scripts@[j]@);
    assert(bytes_of(scripts@) == external + internal);
    assert(scripts@.len() == external.len() + internal.len());
    if j < external.len() {
        assert(scripts@[j]@ == external[j]);
        assert(scripts@[j]@ == all[Keychain::External][j]);
    } else {
        let i = j - external.len();
        assert(scripts@[j]@ == internal[i]);
        assert(scripts@[j]@ == all[Keychain::Internal][i]);
    }
}

/// What is matched against filters holds every watched script of both keychains, every registered
/// script, and nothing else.
pub proof fn combined_scripts_hold_all_to_look_for(
    registry: ScriptRegistry,
    index: KeychainTxOutIndex<KeychainKind>,
    peeked: Vec<Vec<u8>>,
    combined: Vec<Vec<u8>>,
    script: Vec<u8>,
    is_registered: bool,
)
    requires
        call_ensures(peek_keychain_scripts, (&index,), peeked),
        call_ensures(ScriptRegistry::combined_scripts, (&registry, &index), combined),
        call_ensures(ScriptRegistry::contains, (&registry, &script), is_registered),
    ensures
        (exists|j: int| 0 <= j < combined@.len() && (#[trigger] combined@[j])@ == script@) <==> (
        exists|j: int| 0 <= j < peeked@.len() && (#[trigger] peeked@[j])@ == script@)
            || is_registered,
        combined@.len() >= peeked@.len(),
        forall|j: int| 0 <= j < peeked@.len() ==> (#[trigger] combined@[j])@ == peeked@[j]@,
{
    let all = bytes_of(combined@);
    assert(all == bytes_of(peeked@) + registry@);
    assert forall|j: int| 0 <= j < combined@.len() implies (#[trigger] combined@[j])@
        == all[j] by {}
    assert forall|j: int| 0 <= j < peeked@.len() implies (#[trigger] peeked@[j])@ == bytes_of(
        peeked@,
    )[j] by {}
    registered_scripts_are_combined(bytes_of(peeked@), registry@, script@);
    if all.contains(script@) {
        let j = choose|j: int| 0 <= j < all.len() && all[j] == script@;
        assert(combined@[j]@ == script@);
    }
    if bytes_of(peeked@).contains(script@) {
        let j = choose|j: int| 0 <= j < bytes_of(peeked@).len() && bytes_of(peeked@)[j] == script@;
        assert(peeked@[j]@ == script@);
    }
    if exists|j: int| 0 <= j < combined@.len() && (#[trigger] combined@[j])@ == script@ {
        let j = choose|j: int| 0 <= j < combined@.len() && (#[trigger] combined@[j])@ == script@;
        assert(all[j] == script@);
    }
    if exists|j: int| 0 <= j < peeked@.len() && (#[trigger] peeked@[j])@ == script@ {
        let j = choose|j: int| 0 <= j < peeked@.len() && (#[trigger] peeked@[j])@ == script@;
        assert(bytes_of(peeked@)[j] == script@);
    }
}

/// A new registry has no script; after a registration it has the new script and those it had
/// before, and no other.
pub proof fn registries_have_what_was_registered(
    fresh: ScriptRegistry,
    in_fresh: bool,
    registry: &mut ScriptRegistry,
    script: Vec<u8>,
    other: Vec<u8>,
    before: bool,
    after: bool,
)
    requires
        call_ensures(ScriptRegistry::new, (), fresh),
        call_ensures(ScriptRegistry::contains, (&fresh, &other), in_fresh),
        call_ensures(ScriptRegistry::contains, (&*old(registry), &other), before),
        call_ensures(ScriptRegistry::insert, (registry, script), ()),
        call_ensures(ScriptRegistry::contains, (&*final(registry), &other), after),
    ensures
        !in_fresh,
        after == (before || other@ == script@),
{
    registering_adds_one_script(old(registry)@, script@, other@);
}

/// As many scripts are derived as there are derivation indices to look for, of which there are at
/// most 2^31.
pub proof fn all_watched_indices_are_derived(last_revealed: Option<u32>, lookahead: u32, n: u32)
    requires
        call_ensures(scripts_to_derive, (last_revealed, lookahead), n),
    ensures
        n <= 0x8000_0000,
        forall|i: int| 0 <= i < n ==> #[trigger] is_watched(last_revealed, lookahead, i),
        n < 0x8000_0000 ==> !is_watched(last_revealed, lookahead, n as int),
{
}

} // verus!
