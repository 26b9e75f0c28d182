use vstd::prelude::*;

verus! {

/// The class of keychain item a search or an addition is about.
#[derive(Clone, Copy, Debug, PartialEq, Eq, Structural)]
pub enum ItemClass {
    GenericPassword,
    InternetPassword,
    Certificate,
    Key,
    Identity,
}

/// The class of key a search is about.
#[derive(Clone, Copy, Debug, PartialEq, Eq, Structural)]
pub enum KeyClass {
    Public,
    Private,
    Symmetric,
}

/// Which items a search matches by their iCloud synchronisation.
#[derive(Clone, Copy, Debug, PartialEq, Eq, Structural)]
pub enum CloudSync {
    Yes,
    No,
    Any,
}

/// The keychain an item is stored in: a given file keychain, the
/// data-protection keychain, or the default file keychain.
pub enum Location<K> {
    FileKeychain(K),
    DataProtectionKeychain,
    DefaultFileKeychain,
}

/// Where an item goes: an explicit keychain wins; without one the
/// data-protection flag picks between the two shared keychains.
pub fn data_location<K>(keychain: Option<K>, data_protection: bool) -> (location: Location<K>)
    ensures
        match keychain {
            Some(k) => location == Location::FileKeychain(k),
            None => if data_protection {
                location == Location::<K>::DataProtectionKeychain
            } else {
                location == Location::<K>::DefaultFileKeychain
            },
        },
{
    match keychain {
        Some(keychain) => Location::FileKeychain(keychain),
        None => if data_protection {
            Location::DataProtectionKeychain
        } else {
            Location::DefaultFileKeychain
        },
    }
}

/// One item found by a keychain search, as the native side returns it: raw
/// data, the attributes of the item (as far as they could be read as text),
/// a reference to a certificate, key, identity or keychain item, or
/// something else.
pub enum FoundItem<A, C, K, I, T> {
    Data(Vec<u8>),
    Attributes(Option<A>),
    Certificate(C),
    Key(K),
    Identity(I),
    KeychainItem(T),
    Unknown,
}

/// One search result as handed to JavaScript: its kind, and the one field
/// that kind fills.
pub struct ItemSearchResult<A, C, K, I, T> {
    pub kind: String,
    pub data: Option<Vec<u8>>,
    pub attributes: Option<A>,
    pub certificate: Option<C>,
    pub key: Option<K>,
    pub identity: Option<I>,
    pub keychain_item: Option<T>,
}

impl<A, C, K, I, T> ItemSearchResult<A, C, K, I, T> {
    /// Whether no payload field is filled.
    pub open spec fn is_bare(self) -> bool {
        &&& self.data is None
        &&& self.attributes is None
        &&& self.certificate is None
        &&& self.key is None
        &&& self.identity is None
        &&& self.keychain_item is None
    }

    /// A result of kind `kind` with no payload.
    pub fn empty(kind: &str) -> (result: Self)
        ensures
            result.kind@ == kind@,
            result.is_bare(),
    {
        ItemSearchResult {
            kind: kind.to_owned(),
            data: None,
            attributes: None,
            certificate: None,
            key: None,
            identity: None,
            keychain_item: None,
        }
    }
}

/// The kind reported for a found item.
pub open spec fn found_kind<A, C, K, I, T>(found: FoundItem<A, C, K, I, T>) -> Seq<char> {
    match found {
        FoundItem::Data(_) => "data"@,
        FoundItem::Attributes(_) => "attributes"@,
        FoundItem::Certificate(_) => "certificate"@,
        FoundItem::Key(_) => "key"@,
        FoundItem::Identity(_) => "identity"@,
        FoundItem::KeychainItem(_) => "keychainItem"@,
        FoundItem::Unknown => "unknown"@,
    }
}

/// The search result for a found item: its kind, and the payload in the one
/// field of that kind; an unknown item carries nothing.
pub fn search_result<A, C, K, I, T>(found: FoundItem<A, C, K, I, T>) -> (result: ItemSearchResult<A, C, K, I, T>)
    ensures
        result.kind@ == found_kind(found),
        found is Data ==> result.kind@ == "data"@,
        found is Attributes ==> result.kind@ == "attributes"@,
        found is Certificate ==> result.kind@ == "certificate"@,
        found is Key ==> result.kind@ == "key"@,
        found is Identity ==> result.kind@ == "identity"@,
        found is KeychainItem ==> result.kind@ == "keychainItem"@,
        found is Unknown ==> result.kind@ == "unknown"@,
        match found {
            FoundItem::Data(data) => result.data == Some(data) && (ItemSearchResult {
                data: None,
                ..result
            }).is_bare(),
            FoundItem::Attributes(attributes) => result.attributes == attributes && (ItemSearchResult {
                attributes: None,
                ..result
            }).is_bare(),
            FoundItem::Certificate(certificate) => result.certificate == Some(certificate) && (ItemSearchResult {
                certificate: None,
                ..result
            }).is_bare(),
            FoundItem::Key(key) => result.key == Some(key) && (ItemSearchResult {
                key: None,
                ..result
            }).is_bare(),
            FoundItem::Identity(identity) => result.identity == Some(identity) && (ItemSearchResult {
                identity: None,
                ..result
            }).is_bare(),
            FoundItem::KeychainItem(item) => result.keychain_item == Some(item) && (ItemSearchResult {
                keychain_item: None,
                ..result
            }).is_bare(),
            FoundItem::Unknown => result.is_bare(),
        },
{
    proof {
        reveal_strlit("data");
        reveal_strlit("attributes");
        reveal_strlit("certificate");
        reveal_strlit("key");
        reveal_strlit("identity");
        reveal_strlit("keychainItem");
        reveal_strlit("unknown");
    }
    match found {
        FoundItem::Data(data) => {
            let mut result = ItemSearchResult::empty("data");
            result.data = Some(data);
            result
        },
        FoundItem::Attributes(attributes) => {
            let mut result = ItemSearchResult::empty("attributes");
            result.attributes = attributes;
            result
        },
        FoundItem::Certificate(certificate) => {
            let mut result = ItemSearchResult::empty("certificate");
            result.certificate = Some(certificate);
            result
        },
        FoundItem::Key(key) => {
            let mut result = ItemSearchResult::empty("key");
            result.key = Some(key);
            result
        },
        FoundItem::Identity(identity) => {
            let mut result = ItemSearchResult::empty("identity");
            result.identity = Some(identity);
            result
        },
        FoundItem::KeychainItem(item) => {
            let mut result = ItemSearchResult::empty("keychainItem");
            result.keychain_item = Some(item);
            result
        },
        FoundItem::Unknown => ItemSearchResult::empty("unknown"),
    }
}

/// The position of a found item's variant among the kinds of results.
pub open spec fn found_variant<A, C, K, I, T>(found: FoundItem<A, C, K, I, T>) -> int {
    match found {
        FoundItem::Data(_) => 0,
        FoundItem::Attributes(_) => 1,
        FoundItem::Certificate(_) => 2,
        FoundItem::Key(_) => 3,
        FoundItem::Identity(_) => 4,
        FoundItem::KeychainItem(_) => 5,
        FoundItem::Unknown => 6,
    }
}

/// The kind of a search result depends on what was found and on nothing
/// else: two found items get the same kind exactly when they are of the same
/// variant, whatever their payloads, and found data is always of kind
/// `"data"`.
pub proof fn law_kind_follows_variant<A, C, K, I, T>(a: FoundItem<A, C, K, I, T>, b: FoundItem<A, C, K, I, T>)
    ensures
        (found_kind(a) == found_kind(b)) <==> (found_variant(a) == found_variant(b)),
        a is Data ==> found_kind(a) == "data"@,
        a is Attributes ==> found_kind(a) == "attributes"@,
        a is Certificate ==> found_kind(a) == "certificate"@,
        a is Key ==> found_kind(a) == "key"@,
        a is Identity ==> found_kind(a) == "identity"@,
        a is KeychainItem ==> found_kind(a) == "keychainItem"@,
        a is Unknown ==> found_kind(a) == "unknown"@,
{
    reveal_strlit("data");
    reveal_strlit("attributes");
    reveal_strlit("certificate");
    reveal_strlit("key");
    reveal_strlit("identity");
    reveal_strlit("keychainItem");
    reveal_strlit("unknown");
    let kinds = seq!["data"@, "attributes"@, "certificate"@, "key"@, "identity"@, "keychainItem"@, "unknown"@];
    assert forall|x: int, y: int| 0 <= x < 7 && 0 <= y < 7 && x != y implies #[trigger] kinds[x] != #[trigger] kinds[y] by {
        assert(kinds[x].len() != kinds[y].len() || kinds[x][0] != kinds[y][0] || kinds[x][1] != kinds[y][1]);
    }
    assert(found_kind(a) == kinds[found_variant(a)]);
    assert(found_kind(b) == kinds[found_variant(b)]);
}

} // verus!
