//! The mirrored fetcher's decisions: when the cached archive is reused, and
//! in which order download sources are tried. The network transfer itself is
//! performed by the surrounding program, driven by these decisions.

use vstd::prelude::*;

use crate::manifest::Asset;

verus! {

impl Asset {
    /// A previously downloaded archive is reused exactly when it exists and
    /// its readable on-disk size equals the declared size; an unreadable
    /// size counts as a miss.
    pub fn is_cached(&self, exists: bool, on_disk_size: Option<u64>) -> (r: bool)
        ensures
            r == (exists && on_disk_size == Some(self.size)),
    {
        exists && match on_disk_size {
            Some(m) => m == self.size,
            None => false,
        }
    }
}

/// Iterates the download sources of one asset: the primary URL first, then
/// each mirror in listed order, each yielded once.
pub struct MirrorDownload {
    urls: Vec<String>,
    next: usize,
}

impl MirrorDownload {
    /// All sources, in the order tried.
    pub closed spec fn spec_urls(&self) -> Seq<Seq<char>> {
        self.urls@.map_values(|u: String| u@)
    }

    /// How many sources have been handed out.
    pub closed spec fn spec_next(&self) -> int {
        self.next as int
    }

    /// The sources of `asset`: its primary URL, then its mirrors in order.
    pub fn new(asset: &Asset) -> (r: MirrorDownload)
        ensures
            r.spec_urls() == seq![asset@.url] + asset@.mirrors,
            r.spec_next() == 0,
    {
        let mut urls: Vec<String> = Vec::new();
        urls.push(asset.browser_download_url.clone());
        proof {
            assert(urls@.map_values(|u: String| u@) =~= seq![asset@.url]
                + asset@.mirrors.subrange(0, 0));
        }
        let mut k: usize = 0;
        let m = asset.mirrors.len();
        while k < m
            invariant
                m == asset.mirrors.len(),
                0 <= k <= m,
                urls@.map_values(|u: String| u@) == seq![asset@.url] + asset@.mirrors.subrange(
                    0,
                    k as int,
                ),
            decreases m - k,
        {
            let ghost prev = urls@;
            urls.push(asset.mirrors[k].clone());
            proof {
                assert(asset@.mirrors[k as int] == asset.mirrors@[k as int]@);
                assert(urls@.map_values(|u: String| u@) =~= prev.map_values(
                    |u: String| u@,
                ).push(asset@.mirrors[k as int]));
                assert(prev.map_values(|u: String| u@).push(asset@.mirrors[k as int]) =~= seq![
                    asset@.url,
                ] + asset@.mirrors.subrange(0, k as int + 1));
            }
            k = k + 1;
        }
        proof {
            assert(asset@.mirrors.subrange(0, m as int) =~= asset@.mirrors);
        }
        MirrorDownload { urls, next: 0 }
    }

    /// The next source to try, in order; `None` once every source has been
    /// handed out. Every failed attempt is followed by the next listed
    /// source, so the first success wins and exhaustion means every source
    /// failed.
    pub fn next_source(&mut self) -> (r: Option<String>)
        ensures
            old(self).spec_next() < old(self).spec_urls().len() ==> {
                &&& r matches Some(u) && u@ == old(self).spec_urls()[old(self).spec_next()]
                &&& final(self).spec_urls() == old(self).spec_urls()
                &&& final(self).spec_next() == old(self).spec_next() + 1
            },
            old(self).spec_next() >= old(self).spec_urls().len() ==> r is None && *final(self)
                == *old(self),
    {
        if self.next < self.urls.len() {
            let u = self.urls[self.next].clone();
            proof {
                assert(self.spec_urls()[self.next as int] == self.urls@[self.next as int]@);
            }
            self.next = self.next + 1;
            Some(u)
        } else {
            None
        }
    }
}

} // verus!
