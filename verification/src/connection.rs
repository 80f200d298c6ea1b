//! How a client finds the compilers.
use crate::text;
use crate::text::{split_pieces, trim};
use vstd::prelude::*;
use vstd::string::{StrSliceExecFns, StringExecFns};

verus! {

/// Why there is no connection to a compiler.
#[derive(Debug, Clone, PartialEq, Eq)]
pub enum ConnectError {
    /// Nothing says where the compilers are.
    NotConfigured,
    /// The name of the compiler could not be resolved.
    Resolution(String),
    /// The name of the compiler has no address.
    NoAddresses { name: String },
    /// No address of the compiler answers.
    Unreachable { name: String, last_error: String },
}

impl ConnectError {
    /// The text of the error.
    pub open spec fn text(self) -> Seq<char> {
        match self {
            ConnectError::NotConfigured => "COMPILER environment variable should be set"@,
            ConnectError::Resolution(source) => source@,
            ConnectError::NoAddresses { name } => "DNS resolution for '"@ + name@
                + "' returned no addresses"@,
            ConnectError::Unreachable { name, last_error } => {
                "Failed to connect to compiler using any of the addresses derived from '"@ + name@
                    + "'. Last error: Some("@ + last_error@ + ")"@
            },
        }
    }

    /// The text of the error.
    pub fn message(&self) -> (r: String)
        ensures
            r@ == self.text(),
    {
        match self {
            ConnectError::NotConfigured => {
                "COMPILER environment variable should be set".to_owned()
            },
            ConnectError::Resolution(source) => source.as_str().to_owned(),
            ConnectError::NoAddresses { name } => "DNS resolution for '".to_owned().concat(
                name.as_str(),
            ).concat("' returned no addresses"),
            ConnectError::Unreachable { name, last_error } => {
                let prefix: &str =
                    "Failed to connect to compiler using any of the addresses derived from '";
                prefix.to_owned().concat(name.as_str()).concat("'. Last error: Some(").concat(
                    last_error.as_str(),
                ).concat(")")
            },
        }
    }
}

/// The pieces of `pieces` that hold more than white space, without the white
/// space around them.
pub open spec fn named(pieces: Seq<Seq<char>>) -> Seq<Seq<char>>
    decreases pieces.len(),
{
    if pieces.len() == 0 {
        Seq::empty()
    } else {
        let name = text::trimmed(pieces.last());
        if name.len() == 0 {
            named(pieces.drop_last())
        } else {
            named(pieces.drop_last()).push(name)
        }
    }
}

/// The compilers that a list, separated by commas, names.
pub open spec fn compilers(list: Seq<char>) -> Seq<Seq<char>> {
    named(text::split(list, ','))
}

/// No compiler of a list has an empty name, or white space around its name.
pub proof fn compilers_have_names(pieces: Seq<Seq<char>>)
    ensures
        forall|i: int|
            0 <= i < named(pieces).len() ==> {
                let name = #[trigger] named(pieces)[i];
                name.len() > 0 && text::trimmed(name) == name
            },
    decreases pieces.len(),
{
    if pieces.len() > 0 {
        compilers_have_names(pieces.drop_last());
        text::trimming_is_idempotent(pieces.last());
        let before = named(pieces.drop_last());
        assert forall|i: int| 0 <= i < named(pieces).len() implies {
            let name = #[trigger] named(pieces)[i];
            name.len() > 0 && text::trimmed(name) == name
        } by {
            if i < before.len() {
                assert(named(pieces)[i] == before[i]);
            }
        }
    }
}

proof fn lemma_named_together(a: Seq<Seq<char>>, b: Seq<Seq<char>>)
    ensures
        named(a + b) == named(a) + named(b),
    decreases b.len(),
{
    if b.len() == 0 {
        assert(a + b =~= a);
        assert(named(a) + named(b) =~= named(a));
    } else {
        lemma_named_together(a, b.drop_last());
        assert((a + b).drop_last() =~= a + b.drop_last());
        assert((a + b).last() == b.last());
        assert(named(a + b) =~= named(a) + named(b));
    }
}

/// A list of one name names exactly that name, character for character, whatever
/// white space stands around it; a list of white space alone names nothing.
pub proof fn lone_name_is_listed(before: Seq<char>, name: Seq<char>, after: Seq<char>)
    requires
        forall|j: int| 0 <= j < before.len() ==> text::white_space(#[trigger] before[j]),
        forall|j: int| 0 <= j < after.len() ==> text::white_space(#[trigger] after[j]),
        forall|j: int| 0 <= j < name.len() ==> #[trigger] name[j] != ',',
        name.len() > 0 ==> !text::white_space(name[0]) && !text::white_space(name.last()),
    ensures
        name.len() > 0 ==> compilers(name) == seq![name],
        compilers(before + name + after) == if name.len() > 0 {
            seq![name]
        } else {
            Seq::<Seq<char>>::empty()
        },
{
    let none = Seq::<char>::empty();
    let list = before + name + after;
    assert forall|j: int| 0 <= j < list.len() implies #[trigger] list[j] != ',' by {
        if j < before.len() {
            assert(list[j] == before[j]);
        } else if j < before.len() + name.len() {
            assert(list[j] == name[j - before.len()]);
        } else {
            assert(list[j] == after[j - before.len() - name.len()]);
        }
    }
    text::pieces_end_at_separators(list, none, ',');
    text::pieces_end_at_separators(name, none, ',');
    text::trimming_leaves_the_middle(before, name, after);
    text::trimming_leaves_the_middle(none, name, none);
    assert(none + name + none =~= name);
    let one = seq![list];
    let other = seq![name];
    assert(one.drop_last() =~= Seq::<Seq<char>>::empty());
    assert(other.drop_last() =~= Seq::<Seq<char>>::empty());
    assert(named(one.drop_last()) =~= Seq::<Seq<char>>::empty());
    assert(named(other.drop_last()) =~= Seq::<Seq<char>>::empty());
    assert(compilers(name) == named(other));
    assert(compilers(list) == named(one));
    assert(name.len() > 0 ==> named(one) =~= seq![name]);
    assert(name.len() > 0 ==> named(other) =~= seq![name]);
}

/// A comma parts a list in two: the compilers of the whole are those of the one
/// part followed by those of the other.
pub proof fn lists_join_at_commas(a: Seq<char>, b: Seq<char>)
    requires
        forall|j: int| 0 <= j < a.len() ==> #[trigger] a[j] != ',',
    ensures
        compilers(a + seq![','] + b) == compilers(a) + compilers(b),
{
    text::pieces_end_at_separators(a, b, ',');
    lemma_named_together(seq![a], text::split(b, ','));
}

/// The compilers that `list` names, in its order.
pub fn compiler_names(list: &str) -> (names: Vec<String>)
    ensures
        text::texts(names@) == compilers(list@),
{
    let pieces: Vec<&str> = split_pieces(list, ',');
    let ghost all = text::str_texts(pieces@);
    let mut names: Vec<String> = Vec::new();
    assert(text::texts(names@) =~= Seq::<Seq<char>>::empty());
    for i in 0..pieces.len()
        invariant
            all == text::str_texts(pieces@),
            text::texts(names@) == named(all.take(i as int)),
    {
        let ghost before = text::texts(names@);
        let name: &str = trim(pieces[i]);
        proof {
            let now = all.take(i + 1);
            assert(now.drop_last() =~= all.take(i as int));
            assert(now.last() == pieces@[i as int]@);
        }
        if name.unicode_len() != 0 {
            names.push(name.to_owned());
            assert(text::texts(names@) =~= before.push(name@));
        }
    }
    assert(all.take(all.len() as int) =~= all);
    names
}

/// The connections, in order, where there are all of them; else the first
/// failure.
pub fn all_connected<C, E>(connections: Vec<Result<C, E>>) -> (r: Result<Vec<C>, E>)
    ensures
        match r {
            Ok(clients) => {
                &&& clients@.len() == connections@.len()
                &&& forall|i: int|
                    0 <= i < clients@.len() ==> #[trigger] connections@[i] == Ok::<C, E>(
                        clients@[i],
                    )
            },
            Err(error) => exists|i: int|
                {
                    &&& 0 <= i < connections@.len()
                    &&& #[trigger] connections@[i] == Err::<C, E>(error)
                    &&& forall|j: int| 0 <= j < i ==> #[trigger] connections@[j] is Ok
                },
        },
{
    let mut clients: Vec<C> = Vec::new();
    let ghost all = connections@;
    for connection in it: connections
        invariant
            it.seq() == all,
            clients@.len() == it.index(),
            forall|i: int|
                0 <= i < clients@.len() ==> #[trigger] all[i] == Ok::<C, E>(clients@[i]),
    {
        match connection {
            Ok(client) => {
                clients.push(client);
            },
            Err(error) => {
                assert(all[it.index()] == Err::<C, E>(error));
                return Err(error);
            },
        }
    }
    Ok(clients)
}

/// A client that looks for one compiler at addresses `A`.
pub struct Connector<A> {
    name: String,
    phase: Phase<A>,
}

enum Phase<A> {
    Parsing,
    Resolving,
    Trying { rest: Vec<A> },
    Over,
}

/// What a client that looks for a compiler is waiting for.
pub ghost enum Connecting<A> {
    /// Whether the name is an address.
    Parsing,
    /// The addresses of the name.
    Resolving,
    /// An answer from one address; `rest` are the addresses that come after it.
    Trying { rest: Seq<A> },
    /// Nothing.
    Over,
}

/// What happens to a client that looks for a compiler; `C` is a connection.
#[derive(Debug, PartialEq, Eq)]
pub enum ConnectEvent<A, C> {
    /// The name is an address, or it is none.
    Parsed(Option<A>),
    /// The name was resolved, or it could not be.
    Resolved(Result<Vec<A>, String>),
    /// The address answered, or it did not.
    Connected(Result<C, String>),
}

/// What a client that looks for a compiler is to do.
#[derive(Debug, PartialEq, Eq)]
pub enum ConnectAction<A, C> {
    /// Resolve the name.
    Resolve,
    /// Connect to the address.
    Attempt(A),
    /// There is a connection.
    Done(C),
    /// There is none.
    Fail(ConnectError),
}

impl<A> Connecting<A> {
    /// Whether `event` can happen now.
    pub open spec fn expects<C>(self, event: ConnectEvent<A, C>) -> bool {
        match self {
            Connecting::Parsing => event is Parsed,
            Connecting::Resolving => event is Resolved,
            Connecting::Trying { .. } => event is Connected,
            Connecting::Over => false,
        }
    }

    /// What the client waits for after `event`.
    pub open spec fn after<C>(self, event: ConnectEvent<A, C>) -> Connecting<A> {
        match event {
            ConnectEvent::Parsed(Some(_)) => Connecting::Trying { rest: Seq::empty() },
            ConnectEvent::Parsed(None) => Connecting::Resolving,
            ConnectEvent::Resolved(Ok(addresses)) => if addresses@.len() > 0 {
                Connecting::Trying { rest: addresses@.skip(1) }
            } else {
                Connecting::Over
            },
            ConnectEvent::Resolved(Err(_)) => Connecting::Over,
            ConnectEvent::Connected(Ok(_)) => Connecting::Over,
            ConnectEvent::Connected(Err(_)) => match self {
                Connecting::Trying { rest } => if rest.len() > 0 {
                    Connecting::Trying { rest: rest.skip(1) }
                } else {
                    Connecting::Over
                },
                _ => Connecting::Over,
            },
        }
    }

    /// `action` is what the client that looks for `name` is to do when `event`
    /// happens.
    pub open spec fn reaction<C>(
        self,
        name: Seq<char>,
        event: ConnectEvent<A, C>,
        action: ConnectAction<A, C>,
    ) -> bool {
        match event {
            ConnectEvent::Parsed(Some(address)) => action == ConnectAction::<A, C>::Attempt(
                address,
            ),
            ConnectEvent::Parsed(None) => action is Resolve,
            ConnectEvent::Resolved(Ok(addresses)) => if addresses@.len() > 0 {
                action == ConnectAction::<A, C>::Attempt(addresses@[0])
            } else {
                &&& action matches ConnectAction::Fail(ConnectError::NoAddresses { name: of })
                &&& of@ == name
            },
            ConnectEvent::Resolved(Err(source)) => action == ConnectAction::<A, C>::Fail(
                ConnectError::Resolution(source),
            ),
            ConnectEvent::Connected(Ok(connection)) => action == ConnectAction::<A, C>::Done(
                connection,
            ),
            ConnectEvent::Connected(Err(error)) => match self {
                Connecting::Trying { rest } => if rest.len() > 0 {
                    action == ConnectAction::<A, C>::Attempt(rest[0])
                } else {
                    &&& action matches ConnectAction::Fail(
                        ConnectError::Unreachable { name: of, last_error },
                    )
                    &&& of@ == name
                    &&& last_error == error
                },
                _ => false,
            },
        }
    }
}

impl<A> View for Connector<A> {
    type V = Connecting<A>;

    closed spec fn view(&self) -> Connecting<A> {
        match self.phase {
            Phase::Parsing => Connecting::Parsing,
            Phase::Resolving => Connecting::Resolving,
            Phase::Trying { rest } => Connecting::Trying { rest: rest@ },
            Phase::Over => Connecting::Over,
        }
    }
}

impl<A> Connector<A> {
    /// What the client looks for.
    pub closed spec fn name(self) -> Seq<char> {
        self.name@
    }

    /// A client that looks for the compiler `name`, which may be an address.
    pub fn new(name: &str) -> (connector: Connector<A>)
        ensures
            connector@ is Parsing,
            connector.name() == name@,
    {
        Connector { name: name.to_owned(), phase: Phase::Parsing }
    }

    /// The next address, or the failure where there is none.
    fn next_attempt<C>(&mut self, rest: Vec<A>, failure: ConnectError) -> (action: ConnectAction<
        A,
        C,
    >)
        ensures
            final(self).name() == old(self).name(),
            if rest@.len() > 0 {
                &&& action == ConnectAction::<A, C>::Attempt(rest@[0])
                &&& final(self)@ == (Connecting::Trying { rest: rest@.skip(1) })
            } else {
                &&& action == ConnectAction::<A, C>::Fail(failure)
                &&& final(self)@ is Over
            },
    {
        let mut rest: Vec<A> = rest;
        if rest.len() > 0 {
            let ghost all = rest@;
            let address: A = rest.remove(0);
            assert(rest@ =~= all.skip(1));
            self.phase = Phase::Trying { rest };
            ConnectAction::Attempt(address)
        } else {
            self.phase = Phase::Over;
            ConnectAction::Fail(failure)
        }
    }

    /// Takes an event and says what the client is to do.
    pub fn advance<C>(&mut self, event: ConnectEvent<A, C>) -> (action: ConnectAction<A, C>)
        requires
            old(self)@.expects(event),
        ensures
            final(self)@ == old(self)@.after(event),
            final(self).name() == old(self).name(),
            old(self)@.reaction(old(self).name(), event, action),
    {
        match event {
            ConnectEvent::Parsed(Some(address)) => {
                let rest: Vec<A> = Vec::new();
                assert(rest@ =~= Seq::empty());
                self.phase = Phase::Trying { rest };
                ConnectAction::Attempt(address)
            },
            ConnectEvent::Parsed(None) => {
                self.phase = Phase::Resolving;
                ConnectAction::Resolve
            },
            ConnectEvent::Resolved(Ok(addresses)) => {
                let failure: ConnectError = ConnectError::NoAddresses {
                    name: self.name.as_str().to_owned(),
                };
                self.next_attempt(addresses, failure)
            },
            ConnectEvent::Resolved(Err(source)) => {
                self.phase = Phase::Over;
                ConnectAction::Fail(ConnectError::Resolution(source))
            },
            ConnectEvent::Connected(Ok(connection)) => {
                self.phase = Phase::Over;
                ConnectAction::Done(connection)
            },
            ConnectEvent::Connected(Err(last_error)) => {
                let mut phase: Phase<A> = Phase::Over;
                std::mem::swap(&mut phase, &mut self.phase);
                let failure: ConnectError = ConnectError::Unreachable {
                    name: self.name.as_str().to_owned(),
                    last_error,
                };
                match phase {
                    Phase::Trying { rest } => self.next_attempt(rest, failure),
                    _ => vstd::pervasive::unreached(),
                }
            },
        }
    }
}

/// What a client waits for that tries `addresses` and of which as many attempts
/// as there are `failures` have failed.
pub open spec fn trying_after<A, C>(addresses: Seq<A>, failures: Seq<String>) -> Connecting<A>
    decreases failures.len(),
{
    if failures.len() == 0 {
        Connecting::Trying { rest: addresses.skip(1) }
    } else {
        trying_after::<A, C>(addresses, failures.drop_last()).after(
            ConnectEvent::<A, C>::Connected(Err(failures.last())),
        )
    }
}

proof fn lemma_trying_after<A, C>(addresses: Seq<A>, failures: Seq<String>)
    requires
        failures.len() < addresses.len(),
    ensures
        trying_after::<A, C>(addresses, failures) == (Connecting::Trying {
            rest: addresses.skip(failures.len() as int + 1),
        }),
    decreases failures.len(),
{
    if failures.len() > 0 {
        lemma_trying_after::<A, C>(addresses, failures.drop_last());
        assert(addresses.skip(failures.len() as int).skip(1) =~= addresses.skip(
            failures.len() as int + 1,
        ));
    }
}

/// The addresses of a compiler are tried in their order, each once; the first
/// that answers is connected to, and where none does the client fails with the
/// last error.
pub proof fn addresses_are_tried_in_order<A, C>(
    name: Seq<char>,
    addresses: Seq<A>,
    failures: Seq<String>,
    answer: Result<C, String>,
    action: ConnectAction<A, C>,
)
    requires
        failures.len() < addresses.len(),
        trying_after::<A, C>(addresses, failures).reaction(
            name,
            ConnectEvent::Connected(answer),
            action,
        ),
    ensures
        match answer {
            Ok(connection) => action == ConnectAction::<A, C>::Done(connection),
            Err(error) => if failures.len() + 1 < addresses.len() {
                action == ConnectAction::<A, C>::Attempt(addresses[failures.len() as int + 1])
            } else {
                &&& action matches ConnectAction::Fail(
                    ConnectError::Unreachable { name: of, last_error },
                )
                &&& of@ == name
                &&& last_error == error
            },
        },
{
    lemma_trying_after::<A, C>(addresses, failures);
}

/// A name that is an address is connected to at that address and at no other. A
/// name that is none is resolved, and then its addresses are tried from the first
/// on, all that follow it later; a name without addresses fails by that name, and a
/// failure to resolve is passed on.
pub proof fn search_begins_with_the_first_address<A, C>(
    name: Seq<char>,
    parsed: Option<A>,
    resolved: Result<Vec<A>, String>,
    first: ConnectAction<A, C>,
    second: ConnectAction<A, C>,
)
    requires
        Connecting::Parsing.reaction(name, ConnectEvent::Parsed(parsed), first),
        Connecting::Resolving.reaction(name, ConnectEvent::Resolved(resolved), second),
    ensures
        match parsed {
            Some(address) => {
                &&& first == ConnectAction::<A, C>::Attempt(address)
                &&& Connecting::Parsing.after(ConnectEvent::<A, C>::Parsed(parsed)) == (
                Connecting::Trying { rest: Seq::<A>::empty() })
            },
            None => {
                &&& first == ConnectAction::<A, C>::Resolve
                &&& Connecting::Parsing.after(ConnectEvent::<A, C>::Parsed(parsed)) == Connecting::<
                    A,
                >::Resolving
            },
        },
        match resolved {
            Ok(addresses) => if addresses@.len() > 0 {
                &&& second == ConnectAction::<A, C>::Attempt(addresses@[0])
                &&& (Connecting::Resolving.after(
                    ConnectEvent::<A, C>::Resolved(resolved),
                ) matches Connecting::Trying { rest } && seq![addresses@[0]] + rest
                    == addresses@)
            } else {
                second matches ConnectAction::Fail(ConnectError::NoAddresses { name: of }) && of@
                    == name
            },
            Err(source) => second matches ConnectAction::Fail(error) && error.text() == source@,
        },
{
    match resolved {
        Ok(addresses) => {
            if addresses@.len() > 0 {
                assert(seq![addresses@[0]] + addresses@.skip(1) =~= addresses@);
            }
        },
        Err(_) => {},
    }
}

/// An error tells the whole of the name that was looked for, and the whole of the
/// error that came last.
pub proof fn connect_errors_tell_all(name: String, error: String)
    ensures
        ConnectError::NotConfigured.text() == "COMPILER environment variable should be set"@,
        ConnectError::Resolution(error).text() == error@,
        (ConnectError::NoAddresses { name }).text() == "DNS resolution for '"@ + name@
            + "' returned no addresses"@,
        (ConnectError::Unreachable { name, last_error: error }).text()
            == "Failed to connect to compiler using any of the addresses derived from '"@ + name@
            + "'. Last error: Some("@ + error@ + ")"@,
{
}

/// The first address that answers ends the search with the connection to it, whatever
/// addresses are left.
pub proof fn first_answer_ends_the_search<A, C>(
    name: Seq<char>,
    rest: Seq<A>,
    connection: C,
    action: ConnectAction<A, C>,
)
    requires
        (Connecting::Trying { rest }).reaction(
            name,
            ConnectEvent::Connected(Ok(connection)),
            action,
        ),
    ensures
        action == ConnectAction::<A, C>::Done(connection),
        (Connecting::Trying { rest }).after(ConnectEvent::<A, C>::Connected(Ok(connection)))
            is Over,
{
}

/// Reading a list yields what reading its parts on both sides of a comma yields, one after
/// the other; and reading a name without a comma, with any white space around it, yields
/// that name, whole, and nothing else.
pub proof fn lists_are_read_name_by_name(
    whole: &str,
    first: &str,
    rest: &str,
    names: Vec<String>,
    first_names: Vec<String>,
    rest_names: Vec<String>,
    before: Seq<char>,
    name: Seq<char>,
    after: Seq<char>,
)
    requires
        call_ensures(compiler_names, (whole,), names),
        call_ensures(compiler_names, (first,), first_names),
        call_ensures(compiler_names, (rest,), rest_names),
        whole@ == first@ + seq![','] + rest@,
        first@ == before + name + after,
        forall|j: int| 0 <= j < before.len() ==> text::white_space(#[trigger] before[j]),
        forall|j: int| 0 <= j < after.len() ==> text::white_space(#[trigger] after[j]),
        forall|j: int| 0 <= j < name.len() ==> #[trigger] name[j] != ',',
        name.len() > 0,
        !text::white_space(name[0]),
        !text::white_space(name.last()),
    ensures
        first_names@.len() == 1,
        first_names@[0]@ == name,
        names@.len() == 1 + rest_names@.len(),
        names@[0]@ == name,
        forall|i: int|
            0 <= i < rest_names@.len() ==> (#[trigger] rest_names@[i])@ == names@[i + 1]@,
{
    let list = first@;
    assert forall|j: int| 0 <= j < list.len() implies #[trigger] list[j] != ',' by {
        if j < before.len() {
            assert(list[j] == before[j]);
        } else if j < before.len() + name.len() {
            assert(list[j] == name[j - before.len()]);
        } else {
            assert(list[j] == after[j - before.len() - name.len()]);
        }
    }
    lone_name_is_listed(before, name, after);
    lists_join_at_commas(list, rest@);
    text::texts_are_of_each(names@, Seq::empty());
    text::texts_are_of_each(first_names@, Seq::empty());
    text::texts_are_of_each(rest_names@, Seq::empty());
    assert(text::texts(names@) == seq![name] + text::texts(rest_names@));
    assert forall|i: int| 0 <= i < rest_names@.len() implies (#[trigger] rest_names@[i])@
        == names@[i + 1]@ by {
        assert(text::texts(names@)[i + 1] == text::texts(rest_names@)[i]);
    }
    assert(text::texts(first_names@)[0] == name);
    assert(text::texts(names@)[0] == name);
}

/// All connections are taken over, each in its place, where none failed; else the failure
/// that stands first is what is told, whatever the others are.
pub proof fn connections_are_all_or_none<C, E>(
    connections: Vec<Result<C, E>>,
    r: Result<Vec<C>, E>,
    first: int,
)
    requires
        call_ensures(all_connected::<C, E>, (connections,), r),
    ensures
        (forall|i: int| 0 <= i < connections@.len() ==> #[trigger] connections@[i] is Ok) ==> {
            &&& r matches Ok(clients)
            &&& clients@.len() == connections@.len()
            &&& forall|i: int|
                0 <= i < clients@.len() ==> #[trigger] clients@[i] == connections@[i]->Ok_0
        },
        (0 <= first < connections@.len() && connections@[first] is Err && forall|i: int|
            0 <= i < first ==> #[trigger] connections@[i] is Ok) ==> (r matches Err(error) && error
            == connections@[first]->Err_0),
{
    if forall|i: int| 0 <= i < connections@.len() ==> #[trigger] connections@[i] is Ok {
        match r {
            Ok(clients) => {
                assert forall|i: int| 0 <= i < clients@.len() implies #[trigger] clients@[i]
                    == connections@[i]->Ok_0 by {
                    assert(connections@[i] == Ok::<C, E>(clients@[i]));
                }
            },
            Err(_) => {},
        }
    }
}

/// A client that looks for a compiler does what is said of it here at every event, and it
/// goes on to look for the same name.
pub proof fn connectors_do_as_stated<A, C>(
    connector: &mut Connector<A>,
    event: ConnectEvent<A, C>,
    action: ConnectAction<A, C>,
)
    requires
        call_ensures(Connector::<A>::advance::<C>, (connector, event), action),
    ensures
        final(connector)@ == old(connector)@.after(event),
        final(connector).name() == old(connector).name(),
        old(connector)@.reaction(old(connector).name(), event, action),
{
}

} // verus!
