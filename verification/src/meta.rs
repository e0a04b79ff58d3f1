//! The metadata reader: the lookup of one value in the `meta` column family.
//!
//! A lookup is a value of [`MetaFetch`], driven like a compaction run: [`fetch_meta`] gives
//! the first [`MetaAction`], the driver performs it and hands what happened to
//! [`MetaFetch::step`] as a [`MetaEvent`], until the action is [`MetaAction::Finish`].
//!
//! That nothing is stored under a key is no failure: the lookup then gives no value.
//! Values are text in UTF-8; one that is not is reported with its bytes. Nothing is ever
//! written.
use crate::error::{Error, ErrorView};
use vstd::prelude::*;
use vstd::utf8::{decode_utf8, encode_utf8, valid_utf8};

verus! {

/// The name of the column family that holds the metadata.
pub open spec fn meta_column_family() -> Seq<char> {
    "meta"@
}

/// What a lookup waits for.
#[derive(Clone, Copy, Debug, PartialEq, Eq, Structural)]
pub enum MetaPhase {
    /// The `meta` column family.
    Resolving,
    /// The value under the key.
    Reading,
    /// Nothing: the lookup is over.
    Finished,
}

/// What the driver is asked to do next.
#[derive(Debug)]
pub enum MetaAction<E> {
    /// Look up the column family of this name in the open database, and keep its handle.
    ResolveColumnFamily(String),
    /// Read the value stored under this key in the column family that was found.
    Get(Vec<u8>),
    /// Return this outcome: the lookup is over.
    Finish(Result<Option<String>, Error<E>>),
    /// Nothing: the lookup was over before, or the event did not answer what was asked.
    Stopped,
}

/// What happened when the driver did what it was asked to do.
#[derive(Debug)]
pub enum MetaEvent<E> {
    /// Whether the database has the column family that was looked up.
    ColumnFamilyResolved(bool),
    /// The bytes stored under the key, nothing where there are none, or why the engine
    /// could not read.
    Read(Result<Option<Vec<u8>>, E>),
}

/// The mathematical content of a [`MetaAction`].
pub enum MetaActionView<E> {
    ResolveColumnFamily(Seq<char>),
    Get(Seq<u8>),
    Finish(Result<Option<Seq<char>>, ErrorView<E>>),
    Stopped,
}

/// The mathematical content of a [`MetaEvent`].
pub enum MetaEventView<E> {
    ColumnFamilyResolved(bool),
    Read(Result<Option<Seq<u8>>, E>),
}

/// The content of the outcome of a lookup.
pub open spec fn fetched_view<E>(outcome: Result<Option<String>, Error<E>>) -> Result<
    Option<Seq<char>>,
    ErrorView<E>,
> {
    match outcome {
        Ok(Some(text)) => Ok(Some(text@)),
        Ok(None) => Ok(None),
        Err(e) => Err(e@),
    }
}

impl<E> View for MetaAction<E> {
    type V = MetaActionView<E>;

    open spec fn view(&self) -> MetaActionView<E> {
        match *self {
            MetaAction::ResolveColumnFamily(name) => MetaActionView::ResolveColumnFamily(name@),
            MetaAction::Get(key) => MetaActionView::Get(key@),
            MetaAction::Finish(outcome) => MetaActionView::Finish(fetched_view(outcome)),
            MetaAction::Stopped => MetaActionView::Stopped,
        }
    }
}

impl<E> View for MetaEvent<E> {
    type V = MetaEventView<E>;

    open spec fn view(&self) -> MetaEventView<E> {
        match *self {
            MetaEvent::ColumnFamilyResolved(found) => MetaEventView::ColumnFamilyResolved(found),
            MetaEvent::Read(Ok(Some(bytes))) => MetaEventView::Read(Ok(Some(bytes@))),
            MetaEvent::Read(Ok(None)) => MetaEventView::Read(Ok(None)),
            MetaEvent::Read(Err(cause)) => MetaEventView::Read(Err(cause)),
        }
    }
}

/// What a stored value is read as: its text if it is UTF-8, and a failure that holds the
/// bytes if it is not.
pub open spec fn decoded<E>(bytes: Seq<u8>) -> Result<Option<Seq<char>>, ErrorView<E>> {
    if valid_utf8(bytes) {
        Ok(Some(decode_utf8(bytes)))
    } else {
        Err(ErrorView::InvalidUtf8(bytes))
    }
}

/// The state of a lookup, as mathematics.
pub struct MetaState {
    /// The key that is looked up.
    pub key: Seq<char>,
    /// What the lookup waits for.
    pub phase: MetaPhase,
}

impl MetaState {
    /// The lookup ends with this outcome.
    pub open spec fn finish<E>(self, outcome: Result<Option<Seq<char>>, ErrorView<E>>) -> (
        MetaState,
        MetaActionView<E>,
    ) {
        (MetaState { phase: MetaPhase::Finished, ..self }, MetaActionView::Finish(outcome))
    }

    /// What a lookup does when it is told what happened: the state after the event, and
    /// the action that is asked for next.
    ///
    /// Without a `meta` column family the lookup fails, and nothing is read. A failure of
    /// the engine to read is passed on. Where nothing is stored the lookup gives no value,
    /// and where something is it gives what [`decoded`] makes of it. An event that does not
    /// answer what the lookup waits for stops it.
    pub open spec fn next<E>(self, event: MetaEventView<E>) -> (MetaState, MetaActionView<E>) {
        match (self.phase, event) {
            (MetaPhase::Resolving, MetaEventView::ColumnFamilyResolved(found)) => if found {
                (
                    MetaState { phase: MetaPhase::Reading, ..self },
                    MetaActionView::Get(encode_utf8(self.key)),
                )
            } else {
                self.finish(Err(ErrorView::UnknownColumnFamily))
            },
            (MetaPhase::Reading, MetaEventView::Read(Err(cause))) => self.finish(
                Err(ErrorView::ReadData(cause)),
            ),
            (MetaPhase::Reading, MetaEventView::Read(Ok(None))) => self.finish(Ok(None)),
            (MetaPhase::Reading, MetaEventView::Read(Ok(Some(bytes)))) => self.finish(
                decoded(bytes),
            ),
            _ => (MetaState { phase: MetaPhase::Finished, ..self }, MetaActionView::Stopped),
        }
    }
}

/// How the lookup of a key begins: with the `meta` column family.
pub open spec fn begin_fetch<E>(key: Seq<char>) -> (MetaState, MetaActionView<E>) {
    (
        MetaState { key, phase: MetaPhase::Resolving },
        MetaActionView::ResolveColumnFamily(meta_column_family()),
    )
}

/// A lookup: the key, and what the lookup waits for.
///
/// `E` is the error type of the engine that the lookup is driven against.
#[derive(Debug)]
pub struct MetaFetch<E> {
    key: String,
    phase: MetaPhase,
    engine: core::marker::PhantomData<E>,
}

impl<E> View for MetaFetch<E> {
    type V = MetaState;

    closed spec fn view(&self) -> MetaState {
        MetaState { key: self.key@, phase: self.phase }
    }
}

/// Calls `String::from_utf8` of std on the bytes, and takes the bytes back out of its error
/// with `FromUtf8Error::into_bytes`.
///
/// Trusted, as std documents the two: if the bytes are UTF-8, the result is the string
/// that they encode; if they are not, the result is an error that holds the bytes as they
/// were given.
#[verifier::external_body]
fn string_from_utf8(bytes: Vec<u8>) -> (text: Result<String, Vec<u8>>)
    ensures
        valid_utf8(bytes@) ==> text is Ok && text->Ok_0@ == decode_utf8(bytes@),
        !valid_utf8(bytes@) ==> text is Err && text->Err_0@ == bytes@,
{
    match String::from_utf8(bytes) {
        Ok(text) => Ok(text),
        Err(error) => Err(error.into_bytes()),
    }
}

/// Reads a stored value as text.
pub fn decode_meta<E>(bytes: Vec<u8>) -> (outcome: Result<Option<String>, Error<E>>)
    ensures
        fetched_view(outcome) == decoded::<E>(bytes@),
{
    match string_from_utf8(bytes) {
        Ok(text) => Ok(Some(text)),
        Err(rejected) => Err(Error::InvalidUtf8(rejected)),
    }
}

/// Begins the lookup of the value stored under `key` in the `meta` column family.
pub fn fetch_meta<E>(key: &str) -> (fetch: (MetaFetch<E>, MetaAction<E>))
    ensures
        (fetch.0@, fetch.1@) == begin_fetch::<E>(key@),
{
    (
        MetaFetch {
            key: key.to_owned(),
            phase: MetaPhase::Resolving,
            engine: core::marker::PhantomData,
        },
        MetaAction::ResolveColumnFamily("meta".to_owned()),
    )
}

impl<E> MetaFetch<E> {
    /// Tells what the lookup waits for.
    pub fn phase(&self) -> (phase: MetaPhase)
        ensures
            phase == self@.phase,
    {
        self.phase
    }

    fn finish(self, outcome: Result<Option<String>, Error<E>>) -> (fetch: (
        MetaFetch<E>,
        MetaAction<E>,
    ))
        ensures
            (fetch.0@, fetch.1@) == self@.finish(fetched_view(outcome)),
    {
        (MetaFetch { phase: MetaPhase::Finished, ..self }, MetaAction::Finish(outcome))
    }

    /// Takes what happened, and gives the lookup after it and the action to perform next.
    ///
    /// There is no event on which this fails. An event that does not answer the action
    /// that was asked for last stops the lookup, as does any event once the lookup is
    /// over: the action is then [`MetaAction::Stopped`].
    pub fn step(self, event: MetaEvent<E>) -> (fetch: (MetaFetch<E>, MetaAction<E>))
        ensures
            (fetch.0@, fetch.1@) == self@.next(event@),
    {
        match self.phase {
            MetaPhase::Resolving => match event {
                MetaEvent::ColumnFamilyResolved(found) => if found {
                    let key = self.key.as_str().as_bytes_vec();
                    (MetaFetch { phase: MetaPhase::Reading, ..self }, MetaAction::Get(key))
                } else {
                    self.finish(Err(Error::UnknownColumnFamily))
                },
                _ => (MetaFetch { phase: MetaPhase::Finished, ..self }, MetaAction::Stopped),
            },
            MetaPhase::Reading => match event {
                MetaEvent::Read(Err(cause)) => self.finish(Err(Error::ReadData(cause))),
                MetaEvent::Read(Ok(None)) => self.finish(Ok(None)),
                MetaEvent::Read(Ok(Some(bytes))) => {
                    let outcome = decode_meta(bytes);
                    self.finish(outcome)
                },
                _ => (MetaFetch { phase: MetaPhase::Finished, ..self }, MetaAction::Stopped),
            },
            MetaPhase::Finished => (
                MetaFetch { phase: MetaPhase::Finished, ..self },
                MetaAction::Stopped,
            ),
        }
    }
}

/// Absence is no failure: where the database has the `meta` column family and nothing is
/// stored under the key, the lookup reads the key, as its bytes in UTF-8, and gives no
/// value.
pub proof fn lemma_absent_value_is_no_error<E>(key: Seq<char>)
    ensures
        ({
            let resolving = begin_fetch::<E>(key).0;
            let reading = resolving.next(MetaEventView::<E>::ColumnFamilyResolved(true));
            &&& reading.1 == MetaActionView::<E>::Get(encode_utf8(key))
            &&& reading.0.next(MetaEventView::<E>::Read(Ok(None))).1 == MetaActionView::<
                E,
            >::Finish(Ok(None))
        }),
{
}

/// Without the `meta` column family the lookup fails, whatever the key, and the engine is
/// not asked to read.
pub proof fn lemma_missing_meta_column_family_is_an_error<E>(key: Seq<char>, later: MetaEventView<E>)
    ensures
        ({
            let resolving = begin_fetch::<E>(key).0;
            let failed = resolving.next(MetaEventView::<E>::ColumnFamilyResolved(false));
            &&& failed.1 == MetaActionView::<E>::Finish(Err(ErrorView::UnknownColumnFamily))
            &&& failed.0.next(later).1 == MetaActionView::<E>::Stopped
        }),
{
}

/// A stored text is given back as it was written: where the bytes under the key are the
/// UTF-8 encoding of a text, the lookup gives that text.
pub proof fn lemma_stored_text_is_returned<E>(key: Seq<char>, text: Seq<char>)
    ensures
        ({
            let resolving = begin_fetch::<E>(key).0;
            let reading = resolving.next(MetaEventView::<E>::ColumnFamilyResolved(true)).0;
            reading.next(MetaEventView::<E>::Read(Ok(Some(encode_utf8(text))))).1
                == MetaActionView::<E>::Finish(Ok(Some(text)))
        }),
{
    vstd::utf8::encode_utf8_valid_utf8(text);
    vstd::utf8::encode_utf8_decode_utf8(text);
}

} // verus!
