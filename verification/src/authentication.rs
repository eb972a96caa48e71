//! Scheme-based registry of authentication implementations.
//!
//! The scheme of an auth URL says which implementation handles the endpoint behind it. The server
//! advertises the auth URL, scheme included; the client looks the implementation up by its scheme
//! and hands the whole URL on to it.
use crate::keyed;
use crate::text;
use std::sync::Arc;
use vstd::prelude::*;

verus! {

/// What separates the scheme of an auth URL from the rest.
pub const SCHEME_SEPARATOR: &'static str = "://";

/// A failure of the transport layer, with the message that describes it.
#[derive(Debug, Clone)]
pub struct ProtocolError {
    pub message: String,
}

/// The scheme of an auth URL: what stands before its first `://`.
pub open spec fn scheme_of(auth_url: Seq<char>) -> Option<Seq<char>> {
    match text::find_sub(auth_url, SCHEME_SEPARATOR@) {
        Some(i) => Some(auth_url.take(i)),
        None => None,
    }
}

/// The message for an auth URL without a scheme.
pub open spec fn missing_scheme_message(auth_url: Seq<char>) -> Seq<char> {
    "invalid auth URL (missing scheme): '"@ + auth_url + "'"@
}

/// Extracts the scheme from an auth URL (the part before `://`).
pub fn parse_scheme(auth_url: &str) -> (res: Result<&str, ProtocolError>)
    ensures
        match scheme_of(auth_url@) {
            Some(scheme) => res matches Ok(s) && s@ == scheme,
            None => res matches Err(e) && e.message@ == missing_scheme_message(auth_url@),
        },
{
    proof {
        text::lemma_find_from(auth_url@, SCHEME_SEPARATOR@, 0);
    }
    match text::find(auth_url, SCHEME_SEPARATOR) {
        Some(i) => {
            assert(auth_url@.subrange(0, i as int) =~= auth_url@.take(i as int));
            Ok(auth_url.substring_char(0, i))
        },
        None => {
            let mut message = "invalid auth URL (missing scheme): '".to_owned();
            message.append(auth_url);
            message.append("'");
            Err(ProtocolError { message })
        },
    }
}

/// The text that `std` gives a list of strings under `{:?}`.
pub uninterp spec fn debug_list(names: Seq<Seq<char>>) -> Seq<char>;

/// Renders a list of strings with the `Debug` formatting of `std`, escapes included. The contract
/// claims no more than that the same strings render to the same text.
#[verifier::external_body]
fn debug_text(names: &Vec<String>) -> (res: String)
    ensures
        res@ == debug_list(text::views(names@)),
{
    format!("{:?}", names)
}

/// Another handle to the implementation behind an `Arc`: `Arc::clone` yields a pointer to the same
/// value.
#[verifier::external_body]
fn share<A>(handler: &Arc<A>) -> (res: Arc<A>)
    ensures
        res == *handler,
{
    handler.clone()
}

/// The registered implementations, one for each scheme, and the implementation that is built in.
pub struct AuthenticationRegistry<A> {
    entries: Vec<(String, Arc<A>)>,
    builtin: Arc<A>,
    builtin_registered: bool,
}

impl<A> View for AuthenticationRegistry<A> {
    type V = Map<Seq<char>, Arc<A>>;

    closed spec fn view(&self) -> Map<Seq<char>, Arc<A>> {
        keyed::map_of(self.entries@)
    }
}

impl<A> AuthenticationRegistry<A> {
    /// No scheme is registered twice.
    pub closed spec fn wf(&self) -> bool {
        keyed::names_of(self.entries@).no_duplicates()
    }

    /// The implementation that the first lookup registers.
    pub closed spec fn builtin(&self) -> Arc<A> {
        self.builtin
    }

    /// Whether the built-in implementation has been registered.
    pub closed spec fn builtin_registered(&self) -> bool {
        self.builtin_registered
    }

    /// The registered schemes in the order in which they were first registered.
    pub closed spec fn scheme_list(&self) -> Seq<Seq<char>> {
        keyed::names_of(self.entries@)
    }

    /// What a lookup finds registered: on the first lookup the built-in implementation takes its
    /// two schemes, whatever held them.
    pub open spec fn with_builtin(&self) -> Map<Seq<char>, Arc<A>> {
        if self.builtin_registered() {
            self@
        } else {
            self@.insert("ucs-auth"@, self.builtin()).insert("https"@, self.builtin())
        }
    }

    /// The schemes that a lookup finds registered, in the order in which they were first registered.
    pub open spec fn schemes_with_builtin(&self) -> Seq<Seq<char>> {
        if self.builtin_registered() {
            self.scheme_list()
        } else {
            keyed::listed(keyed::listed(self.scheme_list(), "ucs-auth"@), "https"@)
        }
    }

    /// This registry is what a lookup leaves of `before`: the same one, with the built-in
    /// implementation registered.
    pub open spec fn is_looked_up(&self, before: &Self) -> bool {
        &&& self.wf()
        &&& self@ == before.with_builtin()
        &&& self.builtin() == before.builtin()
        &&& self.builtin_registered()
        &&& self.scheme_list() == before.schemes_with_builtin()
    }

    /// A registry in which nothing is registered yet.
    pub fn new(builtin: Arc<A>) -> (res: Self)
        ensures
            res.wf(),
            res@ == Map::<Seq<char>, Arc<A>>::empty(),
            res.builtin() == builtin,
            !res.builtin_registered(),
            res.scheme_list() == Seq::<Seq<char>>::empty(),
    {
        let res = AuthenticationRegistry {
            entries: Vec::new(),
            builtin,
            builtin_registered: false,
        };
        assert(res@ =~= Map::<Seq<char>, Arc<A>>::empty());
        assert(res.scheme_list() =~= Seq::<Seq<char>>::empty());
        res
    }

    /// The list and the map name the same schemes.
    pub proof fn lemma_schemes_are_the_domain(&self)
        ensures
            self.scheme_list().to_set() == self@.dom(),
            self.wf() ==> self.scheme_list().no_duplicates(),
    {
        assert(self.scheme_list().to_set() =~= self@.dom());
    }
}

/// Registers an implementation for the given scheme, in place of one registered before.
pub fn add<A>(registry: &mut AuthenticationRegistry<A>, scheme: &str, auth: Arc<A>) -> (res: Result<
    (),
    ProtocolError,
>)
    requires
        old(registry).wf(),
    ensures
        res is Ok,
        final(registry).wf(),
        final(registry)@ == old(registry)@.insert(scheme@, auth),
        final(registry).builtin() == old(registry).builtin(),
        final(registry).builtin_registered() == old(registry).builtin_registered(),
        final(registry).scheme_list() == keyed::listed(old(registry).scheme_list(), scheme@),
{
    keyed::put(&mut registry.entries, scheme.to_owned(), auth);
    Ok(())
}

/// Lists the registered schemes.
pub fn schemes<A>(registry: &AuthenticationRegistry<A>) -> (res: Vec<String>)
    ensures
        text::views(res@) == registry.scheme_list(),
        text::views(res@).to_set() == registry@.dom(),
        registry.wf() ==> text::views(res@).no_duplicates(),
{
    let mut res: Vec<String> = Vec::new();
    let mut i: usize = 0;
    while i < registry.entries.len()
        invariant
            i <= registry.entries@.len(),
            res@.len() == i,
            forall|k: int| 0 <= k < i ==> (#[trigger] res@[k])@ == registry.entries@[k].0@,
        decreases registry.entries@.len() - i,
    {
        res.push(registry.entries[i].0.clone());
        i = i + 1;
    }
    proof {
        assert(text::views(res@) =~= registry.scheme_list());
        registry.lemma_schemes_are_the_domain();
    }
    res
}

/// The message for a scheme that nothing is registered for.
pub open spec fn unknown_scheme_message(scheme: Seq<char>, available: Seq<Seq<char>>) -> Seq<char> {
    "no authentication implementation registered for scheme '"@ + scheme + "' (available: "@
        + debug_list(available) + ")"@
}

/// Finds the implementation for an auth URL by its scheme. The first call registers the built-in
/// implementation, also where the URL then turns out to have no scheme.
pub fn find<A>(registry: &mut AuthenticationRegistry<A>, auth_url: &str) -> (res: Result<
    Arc<A>,
    ProtocolError,
>)
    requires
        old(registry).wf(),
    ensures
        final(registry).is_looked_up(old(registry)),
        match scheme_of(auth_url@) {
            None => res matches Err(e) && e.message@ == missing_scheme_message(auth_url@),
            Some(scheme) => if old(registry).with_builtin().contains_key(scheme) {
                res == Ok::<Arc<A>, ProtocolError>(old(registry).with_builtin()[scheme])
            } else {
                res matches Err(e) && e.message@ == unknown_scheme_message(
                    scheme,
                    old(registry).schemes_with_builtin(),
                )
            },
        },
{
    if !registry.builtin_registered {
        let handler = share(&registry.builtin);
        let fallback = share(&registry.builtin);
        let _ = self::add(registry, "ucs-auth", handler);
        let _ = self::add(registry, "https", fallback);
        registry.builtin_registered = true;
    }
    let scheme = match parse_scheme(auth_url) {
        Ok(scheme) => scheme,
        Err(e) => return Err(e),
    };
    match keyed::position(&registry.entries, scheme) {
        Some(i) => Ok(share(&registry.entries[i].1)),
        None => {
            let mut message = "no authentication implementation registered for scheme '".to_owned();
            message.append(scheme);
            message.append("' (available: ");
            let available = schemes(registry);
            message.append(debug_text(&available).as_str());
            message.append(")");
            Err(ProtocolError { message })
        },
    }
}

} // verus!
