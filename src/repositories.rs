//! The repositories of users that are open, each opened once.
use vstd::prelude::*;

use crate::storage::{RepositoriesFactory, RepositoryAlreadyExist, RepositoryOpenError};

verus! {

/// Whether some entry of `users` is `user`.
pub open spec fn is_open(users: Seq<Seq<char>>, user: Seq<char>) -> bool {
    exists|i: int| 0 <= i < users.len() && users[i] == user
}

/// The users of the entries of `s`.
pub open spec fn keys<R>(s: Seq<(String, R)>) -> Seq<Seq<char>> {
    s.map_values(|e: (String, R)| e.0@)
}

/// The open repositories by user, and where more are opened.
pub struct RespsitoriesStore<F, R> {
    factory: F,
    repos: Vec<(String, R)>,
}

impl<F, R> RespsitoriesStore<F, R> {
    /// The users whose repository is open.
    pub closed spec fn users(&self) -> Seq<Seq<char>> {
        keys(self.repos@)
    }

    pub fn new(factory: F) -> (r: Self)
        ensures
            r.users() == Seq::<Seq<char>>::empty(),
    {
        let r = RespsitoriesStore { factory, repos: Vec::new() };
        assert(r.users() =~= Seq::<Seq<char>>::empty());
        r
    }

    /// Where the repository of `user_id` stands.
    fn position(&self, user_id: &String) -> (r: Option<usize>)
        ensures
            r is None <==> !is_open(self.users(), user_id@),
            r is Some ==> r->0 < self.repos@.len() && self.repos@[r->0 as int].0@ == user_id@,
    {
        let mut i: usize = 0;
        while i < self.repos.len()
            invariant
                i <= self.repos@.len(),
                forall|k: int| 0 <= k < i ==> (#[trigger] self.repos@[k]).0@ != user_id@,
            decreases self.repos@.len() - i,
        {
            if self.repos[i].0 == *user_id {
                assert(self.users()[i as int] == user_id@);
                return Some(i);
            }
            i = i + 1;
        }
        assert forall|k: int| 0 <= k < self.users().len() implies self.users()[k] != user_id@ by {
            assert(self.users()[k] == self.repos@[k].0@);
        }
        None
    }

    /// Notes `repo` as the open repository of `user_id`.
    fn insert(&mut self, user_id: String, repo: R)
        ensures
            final(self).users() == old(self).users().push(user_id@),
    {
        let ghost key = user_id@;
        self.repos.push((user_id, repo));
        assert(self.users() =~= old(self).users().push(key));
    }
}

impl<F, R: Clone> RespsitoriesStore<F, R> {
    /// The open repository of `user_id`, if any.
    pub fn get_repo(&self, user_id: &String) -> (r: Option<R>)
        ensures
            r is Some <==> is_open(self.users(), user_id@),
    {
        match self.position(user_id) {
            Some(i) => Some(self.repos[i].1.clone()),
            None => None,
        }
    }

    /// Forgets the open repository of `user_id`.
    pub fn close_repo(&mut self, user_id: &String)
        ensures
            !is_open(final(self).users(), user_id@),
            forall|u: Seq<char>| u != user_id@ ==> (#[trigger] is_open(final(self).users(), u) <==> is_open(old(self).users(), u)),
    {
        let mut all: Vec<(String, R)> = Vec::new();
        std::mem::swap(&mut all, &mut self.repos);
        let ghost before = keys(all@);
        let ghost n = all@.len();
        let mut kept: Vec<(String, R)> = Vec::new();
        while all.len() > 0
            invariant
                all@.len() <= n,
                before.len() == n,
                keys(all@) == before.subrange(n - all@.len(), n as int),
                forall|k: int| 0 <= k < kept@.len() ==> (#[trigger] kept@[k]).0@ != user_id@,
                forall|u: Seq<char>| u != user_id@ ==> (
                    #[trigger] is_open(keys(kept@), u) <==> is_open(before.subrange(0, n - all@.len()), u)),
            decreases all@.len(),
        {
            let ghost done = n - all@.len();
            let ghost rest = all@;
            let entry = all.remove(0);
            assert(keys(rest)[0] == entry.0@);
            assert(before[done] == entry.0@);
            assert(all@ =~= rest.drop_first());
            assert forall|k: int| 0 <= k < all@.len() implies keys(all@)[k] == before[done + 1 + k] by {
                assert(all@[k] == rest[k + 1]);
                assert(keys(rest)[k + 1] == before.subrange(n - rest.len(), n as int)[k + 1]);
            }
            assert(keys(all@) =~= before.subrange(done + 1, n as int));
            let ghost kb = keys(kept@);
            let ghost prefix = before.subrange(0, done);
            assert(before.subrange(0, done + 1) =~= prefix.push(entry.0@));
            assert(forall|u: Seq<char>| u != user_id@ ==> (#[trigger] is_open(kb, u) <==> is_open(prefix, u)));
            if entry.0 != *user_id {
                kept.push(entry);
                assert(keys(kept@) =~= kb.push(before[done]));
                assert forall|u: Seq<char>| u != user_id@ implies (
                    #[trigger] is_open(keys(kept@), u) <==> is_open(before.subrange(0, done + 1), u)) by {
                    let ks = keys(kept@);
                    let ps = before.subrange(0, done + 1);
                    if is_open(ks, u) {
                        let i = choose|i: int| 0 <= i < ks.len() && ks[i] == u;
                        if i < kb.len() {
                            assert(kb[i] == u);
                            assert(is_open(kb, u));
                            assert(is_open(prefix, u));
                            let j = choose|j: int| 0 <= j < prefix.len() && prefix[j] == u;
                            assert(ps[j] == prefix[j]);
                        } else {
                            assert(ps[done] == u);
                        }
                    }
                    if is_open(ps, u) {
                        let j = choose|j: int| 0 <= j < ps.len() && ps[j] == u;
                        if j < done {
                            assert(prefix[j] == u);
                            assert(is_open(prefix, u));
                            assert(is_open(kb, u));
                            let i = choose|i: int| 0 <= i < kb.len() && kb[i] == u;
                            assert(ks[i] == kb[i]);
                        } else {
                            assert(ks[kb.len() as int] == u);
                        }
                    }
                }
            } else {
                assert forall|u: Seq<char>| u != user_id@ implies (
                    #[trigger] is_open(keys(kept@), u) <==> is_open(before.subrange(0, done + 1), u)) by {
                    let ps = before.subrange(0, done + 1);
                    if is_open(ps, u) {
                        let j = choose|j: int| 0 <= j < ps.len() && ps[j] == u;
                        if j < done {
                            assert(prefix[j] == u);
                        }
                    }
                    if is_open(prefix, u) {
                        let j = choose|j: int| 0 <= j < prefix.len() && prefix[j] == u;
                        assert(ps[j] == u);
                    }
                }
            }
        }
        assert(before.subrange(0, n as int) =~= before);
        self.repos = kept;
        assert forall|k: int| 0 <= k < self.users().len() implies self.users()[k] != user_id@ by {
            assert(self.users()[k] == self.repos@[k].0@);
        }
    }
}

impl<F: RepositoriesFactory<R>, R: Clone> RespsitoriesStore<F, R> {
    /// The open repository of `user_id`, or a new one created with `passwd`
    /// unless the user has one already.
    pub fn init_repo(&mut self, user_id: String, passwd: String) -> (r: Result<R, RepositoryAlreadyExist>)
        ensures
            is_open(old(self).users(), user_id@) ==> r is Ok && final(self).users() == old(self).users(),
            r is Ok ==> is_open(final(self).users(), user_id@),
            r is Err ==> final(self).users() == old(self).users(),
    {
        match self.get_repo(&user_id) {
            Some(repo) => Ok(repo),
            None => {
                let repo = match self.factory.initialize_user_repository(&user_id, passwd) {
                    Ok(repo) => repo,
                    Err(err) => {
                        return Err(err);
                    },
                };
                let copy = repo.clone();
                let ghost key = user_id@;
                self.insert(user_id, repo);
                assert(self.users()[self.users().len() - 1] == key);
                Ok(copy)
            },
        }
    }

    /// The open repository of `user_id`, or the user's repository opened
    /// with `passwd`.
    pub fn open_repo(&mut self, user_id: String, passwd: String) -> (r: Result<R, RepositoryOpenError>)
        ensures
            is_open(old(self).users(), user_id@) ==> r is Ok && final(self).users() == old(self).users(),
            r is Ok ==> is_open(final(self).users(), user_id@),
            r is Err ==> final(self).users() == old(self).users(),
    {
        match self.get_repo(&user_id) {
            Some(repo) => Ok(repo),
            None => {
                let repo = match self.factory.get_user_repository(&user_id, passwd) {
                    Ok(repo) => repo,
                    Err(err) => {
                        return Err(err);
                    },
                };
                let copy = repo.clone();
                let ghost key = user_id@;
                self.insert(user_id, repo);
                assert(self.users()[self.users().len() - 1] == key);
                Ok(copy)
            },
        }
    }
}

} // verus!
