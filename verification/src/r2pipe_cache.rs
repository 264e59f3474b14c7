//! The sessions of the disassembly backend, one for each binary, by the
//! binary's file name. The cache decides which session a path belongs to and
//! whether one has to be opened; whoever talks to the backend holds the
//! sessions themselves, under the numbers that the cache hands out.

use vstd::prelude::*;
use crate::text::{chars_of, push_chars, same_chars};

verus! {

/// Where the last component of `path` starts: behind its last `/`, or at 0.
pub open spec fn last_component_start(path: Seq<char>) -> int
    decreases path.len(),
{
    if path.len() == 0 || path.last() == '/' {
        path.len() as int
    } else {
        last_component_start(path.drop_last())
    }
}

/// The file name of a path: its last component, where `/` separates the
/// components, empty components and `.` are passed over, and a path that
/// ends in `..` has no file name. So `apps/Demo.app/Demo`, `Demo/` and
/// `Demo/.` all have the file name `Demo`; `/`, `.` and the empty path have
/// none.
pub open spec fn file_name(path: Seq<char>) -> Option<Seq<char>>
    decreases path.len(),
{
    if path.len() == 0 {
        None
    } else if path.last() == '/' {
        file_name(path.drop_last())
    } else {
        let start = last_component_start(path);
        let component = path.skip(start);
        if component == seq!['.'] {
            file_name(path.drop_last())
        } else if component == seq!['.', '.'] {
            None
        } else {
            Some(component)
        }
    }
}

/// The file name of a path, if it has one.
pub fn file_name_of(path: &str) -> (name: Option<String>)
    ensures
        name.deep_view() == file_name(path@),
{
    let v = chars_of(path);
    let mut end: usize = v.len();
    assert(v@.take(end as int) =~= v@);
    while end > 0
        invariant
            end <= v.len(),
            v@ == path@,
            file_name(v@.take(end as int)) == file_name(path@),
        decreases end,
    {
        let ghost prefix = v@.take(end as int);
        if v[end - 1] == '/' {
            assert(prefix.drop_last() =~= v@.take(end - 1));
            end -= 1;
        } else {
            let mut start: usize = end;
            while start > 0 && v[start - 1] != '/'
                invariant
                    start <= end <= v.len(),
                    prefix == v@.take(end as int),
                    last_component_start(prefix) == last_component_start(v@.take(start as int)),
                decreases start,
            {
                assert(v@.take(start as int).drop_last() =~= v@.take(start - 1));
                start -= 1;
            }
            assert(last_component_start(prefix) == start);
            let ghost component = prefix.skip(start as int);
            let width: usize = end - start;
            let one_dot = width == 1 && v[start] == '.';
            let two_dots = width == 2 && v[start] == '.' && v[start + 1] == '.';
            if one_dot {
                assert(component =~= seq!['.']);
                assert(prefix.drop_last() =~= v@.take(start as int));
                end = start;
            } else if two_dots {
                assert(component =~= seq!['.', '.']);
                return None;
            } else {
                assert(component != seq!['.']) by {
                    if component == seq!['.'] {
                        assert(component.len() == 1);
                        assert(component[0] == '.');
                    }
                }
                assert(component != seq!['.', '.']) by {
                    if component == seq!['.', '.'] {
                        assert(component.len() == 2);
                        assert(component[0] == '.');
                        assert(component[1] == '.');
                    }
                }
                let mut part: Vec<char> = Vec::new();
                let mut i: usize = start;
                while i < end
                    invariant
                        start <= i <= end <= v.len(),
                        part@ == v@.subrange(start as int, i as int),
                    decreases end - i,
                {
                    part.push(v[i]);
                    assert(part@ =~= v@.subrange(start as int, i + 1));
                    i += 1;
                }
                assert(part@ =~= component);
                let mut name = String::new();
                push_chars(&mut name, &part);
                assert(name@ =~= component);
                return Some(name);
            }
        }
    }
    None
}

/// One session: the file name of its binary, and whether the backend has
/// opened and analysed the binary.
struct Session {
    name: String,
    ready: bool,
}

/// A session as plain values.
pub ghost struct SessionView {
    pub name: Seq<char>,
    pub ready: bool,
}

/// The sessions of the backend, in the order in which they were created. A
/// session's number is its place in that order.
pub struct R2PipeCache {
    sessions: Vec<Session>,
}

/// What the cache says of a path: the number of the session for its binary,
/// whether this lookup created the session, so that the backend has yet to
/// open the binary and run its analysis, and whether the session is ready for
/// commands.
#[derive(Debug, Clone, Copy, PartialEq, Eq, Structural)]
pub struct SessionLookup {
    pub session: usize,
    pub created: bool,
    pub ready: bool,
}

/// The number of the session whose binary has the file name `name`.
pub open spec fn find_session(sessions: Seq<SessionView>, name: Seq<char>) -> Option<int>
    decreases sessions.len(),
{
    if sessions.len() == 0 {
        None
    } else {
        match find_session(sessions.drop_last(), name) {
            Some(i) => Some(i),
            None => if sessions.last().name == name {
                Some(sessions.len() - 1)
            } else {
                None
            },
        }
    }
}

/// No two sessions are for the same file name.
pub open spec fn distinct_names(sessions: Seq<SessionView>) -> bool {
    forall|i: int, j: int|
        0 <= i < j < sessions.len() ==> (#[trigger] sessions[i]).name != (
        #[trigger] sessions[j]).name
}

/// What a lookup of `path` returns: nothing for a path without a file name,
/// the session of that file name where there is one, else a new session
/// behind those that exist.
pub open spec fn lookup_of(sessions: Seq<SessionView>, path: Seq<char>) -> Option<SessionLookup> {
    match file_name(path) {
        Some(name) => match find_session(sessions, name) {
            Some(i) => Some(
                SessionLookup { session: i as usize, created: false, ready: sessions[i].ready },
            ),
            None => Some(
                SessionLookup { session: sessions.len() as usize, created: true, ready: false },
            ),
        },
        None => None,
    }
}

/// The sessions after a lookup of `path`: one more, not yet ready, where the
/// file name of the path had none; the same as before in every other case.
pub open spec fn sessions_after_lookup(sessions: Seq<SessionView>, path: Seq<char>) -> Seq<
    SessionView,
> {
    match file_name(path) {
        Some(name) => match find_session(sessions, name) {
            Some(i) => sessions,
            None => sessions.push(SessionView { name, ready: false }),
        },
        None => sessions,
    }
}

/// The sessions after the backend has opened and analysed the binary of
/// session `session`.
pub open spec fn sessions_after_ready(sessions: Seq<SessionView>, session: int) -> Seq<
    SessionView,
> {
    if 0 <= session < sessions.len() {
        sessions.update(session, SessionView { name: sessions[session].name, ready: true })
    } else {
        sessions
    }
}

/// The sessions after the backend has failed to open or to analyse the
/// binary of session `session`: the session is given up, if it is the last
/// that was created and never became ready. The numbers of the others stay.
pub open spec fn sessions_after_discard(sessions: Seq<SessionView>, session: int) -> Seq<
    SessionView,
> {
    if 0 <= session && session == sessions.len() - 1 && !sessions[session].ready {
        sessions.drop_last()
    } else {
        sessions
    }
}

/// A session that is found has the name that was asked for, and no session
/// before it has; where none is found, no session has the name.
pub proof fn lemma_find_session(sessions: Seq<SessionView>, name: Seq<char>)
    ensures
        match find_session(sessions, name) {
            Some(i) => 0 <= i < sessions.len() && sessions[i].name == name && forall|j: int|
                0 <= j < i ==> (#[trigger] sessions[j]).name != name,
            None => forall|j: int| 0 <= j < sessions.len() ==> (#[trigger] sessions[j]).name != name,
        },
    decreases sessions.len(),
{
    if sessions.len() > 0 {
        lemma_find_session(sessions.drop_last(), name);
        assert forall|j: int| 0 <= j < sessions.len() - 1 implies sessions.drop_last()[j]
            == sessions[j] by {}
        match find_session(sessions.drop_last(), name) {
            Some(i) => {
                assert forall|j: int| 0 <= j < i implies (#[trigger] sessions[j]).name != name by {
                    assert(sessions.drop_last()[j].name != name);
                }
            },
            None => {
                assert forall|j: int| 0 <= j < sessions.len() - 1 implies (
                #[trigger] sessions[j]).name != name by {
                    assert(sessions.drop_last()[j].name != name);
                }
            },
        }
    }
}

/// Two paths with the same file name share one session, whatever else the
/// paths hold: after a lookup of the first, a lookup of the second returns
/// the session that the first returned, creates nothing, and leaves the
/// sessions as they were. Once the backend has opened that session, the
/// second lookup finds it ready: the binary is opened and analysed once.
pub proof fn lemma_same_file_name_same_session(
    sessions: Seq<SessionView>,
    first: Seq<char>,
    second: Seq<char>,
)
    requires
        sessions.len() <= usize::MAX,
        file_name(first) is Some,
        file_name(first) == file_name(second),
    ensures
        lookup_of(sessions, first) is Some,
        ({
            let found = lookup_of(sessions, first).unwrap();
            let after = sessions_after_lookup(sessions, first);
            let opened = sessions_after_ready(after, found.session as int);
            &&& lookup_of(after, second) == Some(
                SessionLookup { session: found.session, created: false, ready: found.ready },
            )
            &&& sessions_after_lookup(after, second) == after
            &&& lookup_of(opened, second) == Some(
                SessionLookup { session: found.session, created: false, ready: true },
            )
            &&& sessions_after_lookup(opened, second) == opened
        }),
{
    let name = file_name(first).unwrap();
    let found = lookup_of(sessions, first).unwrap();
    let after = sessions_after_lookup(sessions, first);
    let opened = sessions_after_ready(after, found.session as int);
    lemma_find_session(sessions, name);
    lemma_find_session(after, name);
    lemma_find_session(opened, name);
    match find_session(sessions, name) {
        Some(i) => {},
        None => {
            assert(after.drop_last() =~= sessions);
            assert(after.last().name == name);
        },
    }
    let at = find_session(after, name).unwrap();
    assert(at == found.session as int);
    assert(opened[at].name == name);
    assert forall|j: int| 0 <= j < at implies (#[trigger] opened[j]).name != name by {
        assert(opened[j] == after[j]);
    }
}

/// A lookup keeps the names of the sessions distinct.
pub proof fn lemma_lookup_keeps_names_distinct(sessions: Seq<SessionView>, path: Seq<char>)
    requires
        distinct_names(sessions),
    ensures
        distinct_names(sessions_after_lookup(sessions, path)),
{
    match file_name(path) {
        Some(name) => {
            lemma_find_session(sessions, name);
        },
        None => {},
    }
}

impl View for R2PipeCache {
    type V = Seq<SessionView>;

    closed spec fn view(&self) -> Seq<SessionView> {
        Seq::new(
            self.sessions@.len(),
            |i: int| SessionView { name: self.sessions@[i].name@, ready: self.sessions@[i].ready },
        )
    }
}

impl R2PipeCache {
    /// A cache without sessions.
    pub fn new() -> (cache: Self)
        ensures
            cache@ == Seq::<SessionView>::empty(),
    {
        let cache = R2PipeCache { sessions: Vec::new() };
        assert(cache@ =~= Seq::<SessionView>::empty());
        cache
    }

    /// The number of sessions.
    pub fn len(&self) -> (n: usize)
        ensures
            n == self@.len(),
    {
        self.sessions.len()
    }

    /// The number of the session for the file name `name`.
    fn find(&self, name: &str) -> (found: Option<usize>)
        ensures
            found matches Some(i) ==> i < self@.len() && find_session(self@, name@) == Some(
                i as int,
            ),
            found is None ==> find_session(self@, name@) is None,
    {
        let wanted = chars_of(name);
        let mut i: usize = 0;
        while i < self.sessions.len()
            invariant
                i <= self.sessions.len(),
                wanted@ == name@,
                find_session(self@.take(i as int), name@) is None,
            decreases self.sessions.len() - i,
        {
            let here = chars_of(self.sessions[i].name.as_str());
            assert(self@.take(i + 1).drop_last() =~= self@.take(i as int));
            assert(self@.take(i + 1).last().name == here@);
            if same_chars(&here, &wanted) {
                proof {
                    lemma_find_session(self@.take(i + 1), name@);
                    lemma_find_session(self@, name@);
                    assert(self@.take(i + 1)[i as int] == self@[i as int]);
                    if find_session(self@, name@) is None {
                        assert(self@[i as int].name != name@);
                    } else {
                        let k = find_session(self@, name@).unwrap();
                        if k < i {
                            assert(self@.take(i + 1)[k] == self@[k]);
                        } else if k > i {
                        }
                    }
                }
                return Some(i);
            }
            i += 1;
        }
        assert(self@.take(i as int) =~= self@);
        None
    }

    /// The session for the binary at `image_path`, by the file name of the
    /// path: the one that exists for that file name, or a new one, which the
    /// backend has then to open on `image_path` and to analyse. `None` for a
    /// path without a file name.
    pub fn get_or_create(&mut self, image_path: &str) -> (lookup: Option<SessionLookup>)
        ensures
            lookup == lookup_of(old(self)@, image_path@),
            final(self)@ == sessions_after_lookup(old(self)@, image_path@),
            distinct_names(old(self)@) ==> distinct_names(final(self)@),
    {
        proof {
            if distinct_names(self@) {
                lemma_lookup_keeps_names_distinct(self@, image_path@);
            }
        }
        match file_name_of(image_path) {
            Some(name) => match self.find(name.as_str()) {
                Some(i) => Some(
                    SessionLookup { session: i, created: false, ready: self.sessions[i].ready },
                ),
                None => {
                    let session = self.sessions.len();
                    proof {
                        assert(self@.push(SessionView { name: name@, ready: false }) =~= Seq::new(
                            self.sessions@.len() + 1,
                            |i: int|
                                SessionView {
                                    name: self.sessions@.push(Session { name, ready: false })[i].name@,
                                    ready: self.sessions@.push(Session { name, ready: false })[i].ready,
                                },
                        ));
                    }
                    self.sessions.push(Session { name, ready: false });
                    Some(SessionLookup { session, created: true, ready: false })
                },
            },
            None => None,
        }
    }

    /// Records that the backend has opened and analysed the binary of
    /// session `session`. A number that no session has changes nothing.
    pub fn mark_ready(&mut self, session: usize)
        ensures
            final(self)@ == sessions_after_ready(old(self)@, session as int),
            distinct_names(old(self)@) ==> distinct_names(final(self)@),
    {
        if session < self.sessions.len() {
            let name = self.sessions[session].name.clone();
            let ghost before = self.sessions@;
            proof {
                assert(sessions_after_ready(self@, session as int) =~= Seq::new(
                    before.len(),
                    |i: int|
                        SessionView {
                            name: before.update(session as int, Session { name, ready: true })[i].name@,
                            ready: before.update(session as int, Session { name, ready: true })[i].ready,
                        },
                ));
            }
            self.sessions.set(session, Session { name, ready: true });
        }
    }

    /// Records that the backend has failed to open or to analyse the binary
    /// of session `session`: gives the session up, if it is the last that
    /// was created and never became ready.
    pub fn discard(&mut self, session: usize)
        ensures
            final(self)@ == sessions_after_discard(old(self)@, session as int),
            distinct_names(old(self)@) ==> distinct_names(final(self)@),
    {
        let count = self.sessions.len();
        if count > 0 && session == count - 1 && !self.sessions[session].ready {
            let ghost before = self@;
            self.sessions.pop();
            assert(self@ =~= before.drop_last());
        }
    }

    /// Whether session `session` exists and is ready for commands.
    pub fn is_ready(&self, session: usize) -> (ready: bool)
        ensures
            ready == (session < self@.len() && self@[session as int].ready),
    {
        session < self.sessions.len() && self.sessions[session].ready
    }
}

} // verus!
