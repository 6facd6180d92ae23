//! The configuration snapshot handed to the components at start-up, and the
//! store's catalogue.
use vstd::prelude::*;
use crate::resources::Resources;

verus! {

/// Settings read once at start-up; never changed afterwards.
#[derive(Debug, Clone)]
pub struct Config {
    pub discord_token: String,
    pub discord_app_id: u64,
    pub pterodactyl_url: String,
    pub pterodactyl_api_key: String,
    pub mongodb_uri: String,
    pub redis_uri: String,
    pub stripe_secret_key: String,
    pub stripe_public_key: String,
    pub afk_page_url: String,
    pub linkvertise_verify_url: String,
    pub admin_discord_ids: Vec<u64>,
    pub enable_transfer: bool,
    pub enable_renew: bool,
    pub enable_delete: bool,
    pub store_config: StoreConfig,
}

impl Config {
    /// Whether `user_id` is one of the administrators.
    pub fn is_admin(&self, user_id: u64) -> (r: bool)
        ensures
            r == self.admin_discord_ids@.contains(user_id),
    {
        let mut i: usize = 0;
        while i < self.admin_discord_ids.len()
            invariant
                0 <= i <= self.admin_discord_ids@.len(),
                forall|j: int| 0 <= j < i ==> #[trigger] self.admin_discord_ids@[j] != user_id,
            decreases self.admin_discord_ids@.len() - i,
        {
            if self.admin_discord_ids[i] == user_id {
                return true;
            }
            i = i + 1;
        }
        false
    }
}

#[derive(Debug, Clone)]
pub struct StoreConfig {
    pub items: Vec<StoreItem>,
    pub categories: Vec<String>,
}

#[derive(Debug, Clone)]
pub struct StoreItem {
    pub id: String,
    pub name: String,
    pub description: String,
    /// In coins.
    pub price: u64,
    pub category: String,
    pub resources: Option<StoreResources>,
    /// For items that last a limited time.
    pub duration_days: Option<u32>,
    pub enabled: bool,
}

#[derive(Debug, Clone, Copy, PartialEq, Eq, Structural)]
pub struct StoreResources {
    pub ram: u32,
    pub cpu: u32,
    pub disk: u32,
    pub databases: u32,
    pub allocations: u32,
    pub backups: u32,
}

impl StoreResources {
    pub open spec fn spec_to_resources(self) -> Resources {
        Resources {
            ram: self.ram as i64,
            cpu: self.cpu as i64,
            disk: self.disk as i64,
            databases: self.databases as i64,
            allocations: self.allocations as i64,
            backups: self.backups as i64,
        }
    }

    /// The same quantities as a resource vector.
    pub fn to_resources(&self) -> (r: Resources)
        ensures
            r == self.spec_to_resources(),
            r.is_nonneg(),
    {
        Resources {
            ram: self.ram as i64,
            cpu: self.cpu as i64,
            disk: self.disk as i64,
            databases: self.databases as i64,
            allocations: self.allocations as i64,
            backups: self.backups as i64,
        }
    }
}

/// The first enabled item whose identifier is `item_id`, if any.
pub open spec fn spec_find_item(items: Seq<StoreItem>, item_id: Seq<char>) -> Option<int>
    decreases items.len(),
{
    if items.len() == 0 {
        None
    } else if items[0].id@ == item_id && items[0].enabled {
        Some(0)
    } else {
        match spec_find_item(items.drop_first(), item_id) {
            Some(k) => Some(k + 1),
            None => None,
        }
    }
}

proof fn lemma_find_item(items: Seq<StoreItem>, item_id: Seq<char>)
    ensures
        match spec_find_item(items, item_id) {
            Some(k) => 0 <= k < items.len() && items[k].id@ == item_id && items[k].enabled
                && forall|j: int|
                0 <= j < k ==> !(#[trigger] items[j].id@ == item_id && items[j].enabled),
            None => forall|j: int|
                0 <= j < items.len() ==> !(#[trigger] items[j].id@ == item_id && items[j].enabled),
        },
    decreases items.len(),
{
    if items.len() > 0 {
        lemma_find_item(items.drop_first(), item_id);
        let rest = items.drop_first();
        assert forall|j: int| 1 <= j < items.len() implies #[trigger] items[j] == rest[j - 1] by {}
    }
}

impl StoreConfig {
    /// Where the enabled item `item_id` stands in the catalogue, if it is
    /// there.
    pub fn find_item(&self, item_id: &String) -> (r: Option<usize>)
        ensures
            match r {
                Some(k) => spec_find_item(self.items@, item_id@) == Some(k as int) && k
                    < self.items@.len(),
                None => spec_find_item(self.items@, item_id@) is None,
            },
    {
        proof { lemma_find_item(self.items@, item_id@); }
        let mut i: usize = 0;
        while i < self.items.len()
            invariant
                0 <= i <= self.items@.len(),
                forall|j: int|
                    0 <= j < i ==> !(#[trigger] self.items@[j].id@ == item_id@ && self.items@[j].enabled),
                match spec_find_item(self.items@, item_id@) {
                    Some(k) => 0 <= k < self.items@.len() && self.items@[k].id@ == item_id@
                        && self.items@[k].enabled && forall|j: int|
                        0 <= j < k ==> !(#[trigger] self.items@[j].id@ == item_id@
                            && self.items@[j].enabled),
                    None => forall|j: int|
                        0 <= j < self.items@.len() ==> !(#[trigger] self.items@[j].id@ == item_id@
                            && self.items@[j].enabled),
                },
            decreases self.items@.len() - i,
        {
            if self.items[i].enabled && self.items[i].id == *item_id {
                return Some(i);
            }
            i = i + 1;
        }
        None
    }
}

/// The code of `c` with ASCII capitals taken to small letters.
pub open spec fn ascii_lower_code(c: char) -> int {
    if 65 <= c as int <= 90 {
        c as int + 32
    } else {
        c as int
    }
}

/// The two texts are equal once ASCII capitals are taken to small letters.
pub open spec fn eq_ignoring_ascii_case(a: Seq<char>, b: Seq<char>) -> bool {
    &&& a.len() == b.len()
    &&& forall|i: int| 0 <= i < a.len() ==> #[trigger] ascii_lower_code(a[i]) == ascii_lower_code(b[i])
}

/// Relies on std's `str::eq_ignore_ascii_case`: an ASCII case-insensitive
/// match, the same as comparing the two texts with ASCII capitals lowered.
#[verifier::external_body]
fn eq_ignore_ascii_case(a: &str, b: &str) -> (r: bool)
    ensures
        r == eq_ignoring_ascii_case(a@, b@),
{
    a.eq_ignore_ascii_case(b)
}

/// Whether `item` is listed under the optional category filter.
pub open spec fn listed(item: StoreItem, category: Option<Seq<char>>) -> bool {
    &&& item.enabled
    &&& (category matches Some(c) ==> eq_ignoring_ascii_case(item.category@, c))
}

/// The category filter as text.
pub open spec fn filter_of(category: Option<&str>) -> Option<Seq<char>> {
    match category {
        Some(c) => Some(c@),
        None => None,
    }
}

/// The number of enabled items in `category` exactly.
pub open spec fn count_in(items: Seq<StoreItem>, category: Seq<char>) -> nat
    decreases items.len(),
{
    if items.len() == 0 {
        0
    } else {
        count_in(items.drop_last(), category) + if items.last().enabled && items.last().category@
            == category {
            1nat
        } else {
            0nat
        }
    }
}

impl StoreConfig {
    /// The positions, in order, of the enabled items whose category matches
    /// `category` regardless of ASCII case; all enabled items where no
    /// category is given.
    pub fn visible_items(&self, category: Option<&str>) -> (r: Vec<usize>)
        ensures
            forall|a: int, b: int| 0 <= a < b < r@.len() ==> r@[a] < r@[b],
            forall|a: int|
                0 <= a < r@.len() ==> #[trigger] r@[a] < self.items@.len() && listed(
                    self.items@[r@[a] as int],
                    filter_of(category),
                ),
            forall|k: int|
                0 <= k < self.items@.len() && #[trigger] listed(
                    self.items@[k],
                    filter_of(category),
                ) ==> r@.contains(k as usize),
    {
        let ghost cat = filter_of(category);
        let mut r: Vec<usize> = Vec::new();
        let mut i: usize = 0;
        while i < self.items.len()
            invariant
                0 <= i <= self.items@.len(),
                cat == filter_of(category),
                forall|a: int, b: int| 0 <= a < b < r@.len() ==> r@[a] < r@[b],
                forall|a: int| 0 <= a < r@.len() ==> #[trigger] r@[a] < i,
                forall|a: int|
                    0 <= a < r@.len() ==> #[trigger] listed(self.items@[r@[a] as int], cat),
                forall|k: int|
                    0 <= k < i && #[trigger] listed(self.items@[k], cat) ==> r@.contains(k as usize),
            decreases self.items@.len() - i,
        {
            let item = &self.items[i];
            let shown = item.enabled && match category {
                Some(c) => eq_ignore_ascii_case(item.category.as_str(), c),
                None => true,
            };
            let ghost before = r@;
            if shown {
                r.push(i);
                assert(r@[r@.len() - 1] == i);
                assert forall|k: int|
                    0 <= k < i + 1 && #[trigger] listed(self.items@[k], cat) implies r@.contains(
                    k as usize,
                ) by {
                    if k < i {
                        let a = choose|a: int| 0 <= a < before.len() && before[a] == k as usize;
                        assert(r@[a] == k as usize);
                    } else {
                        assert(r@[r@.len() - 1] == k as usize);
                    }
                }
            }
            i = i + 1;
        }
        r
    }

    /// How many enabled items stand in `category` exactly.
    pub fn count_category(&self, category: &String) -> (r: usize)
        ensures
            r == count_in(self.items@, category@),
    {
        let mut n: usize = 0;
        let mut i: usize = 0;
        while i < self.items.len()
            invariant
                0 <= i <= self.items@.len(),
                n == count_in(self.items@.take(i as int), category@),
                n <= i,
            decreases self.items@.len() - i,
        {
            proof {
                let t = self.items@.take(i + 1);
                assert(t.drop_last() =~= self.items@.take(i as int));
                assert(t.last() == self.items@[i as int]);
            }
            if self.items[i].enabled && self.items[i].category == *category {
                n = n + 1;
            }
            i = i + 1;
        }
        assert(self.items@.take(i as int) =~= self.items@);
        n
    }

    /// For each category in turn, how many enabled items stand in it.
    pub fn category_counts(&self) -> (r: Vec<usize>)
        ensures
            r@.len() == self.categories@.len(),
            forall|j: int|
                0 <= j < r@.len() ==> #[trigger] r@[j] == count_in(self.items@, self.categories@[j]@),
    {
        let mut r: Vec<usize> = Vec::new();
        let mut j: usize = 0;
        while j < self.categories.len()
            invariant
                0 <= j <= self.categories@.len(),
                r@.len() == j,
                forall|a: int|
                    0 <= a < j ==> #[trigger] r@[a] == count_in(self.items@, self.categories@[a]@),
            decreases self.categories@.len() - j,
        {
            let n = self.count_category(&self.categories[j]);
            r.push(n);
            j = j + 1;
        }
        r
    }
}

impl Default for StoreConfig {
    /// The catalogue used where none is configured: 512 MB of memory for
    /// 100 coins, and a basic server plan for 500 coins over 30 days.
    fn default() -> (r: StoreConfig)
        ensures
            r.categories@.len() == 3,
            r.items@.len() == 2,
            r.items@[0].price == 100,
            r.items@[0].resources == Some(
                StoreResources { ram: 512, cpu: 0, disk: 0, databases: 0, allocations: 0, backups: 0 },
            ),
            r.items@[0].duration_days.is_none(),
            r.items@[0].enabled,
            r.items@[1].price == 500,
            r.items@[1].resources == Some(
                StoreResources {
                    ram: 1024,
                    cpu: 100,
                    disk: 2048,
                    databases: 2,
                    allocations: 2,
                    backups: 2,
                },
            ),
            r.items@[1].duration_days == Some(30u32),
            r.items@[1].enabled,
    {
        StoreConfig {
            categories: vec!["Resources".to_string(), "Servers".to_string(), "Addons".to_string()],
            items: vec![
                StoreItem {
                    id: "ram_512".to_string(),
                    name: "512MB RAM".to_string(),
                    description: "Add 512MB RAM to your account".to_string(),
                    price: 100,
                    category: "Resources".to_string(),
                    resources: Some(
                        StoreResources {
                            ram: 512,
                            cpu: 0,
                            disk: 0,
                            databases: 0,
                            allocations: 0,
                            backups: 0,
                        },
                    ),
                    duration_days: None,
                    enabled: true,
                },
                StoreItem {
                    id: "basic_server".to_string(),
                    name: "Basic Server Plan".to_string(),
                    description: "1GB RAM, 100% CPU, 2GB Disk".to_string(),
                    price: 500,
                    category: "Servers".to_string(),
                    resources: Some(
                        StoreResources {
                            ram: 1024,
                            cpu: 100,
                            disk: 2048,
                            databases: 2,
                            allocations: 2,
                            backups: 2,
                        },
                    ),
                    duration_days: Some(30),
                    enabled: true,
                },
            ],
        }
    }
}

} // verus!
