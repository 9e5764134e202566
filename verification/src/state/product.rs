//! What is on sale: the product description and the terms that each kind
//! of product comes with.

use vstd::prelude::*;
use vstd::string::StringExecFns;
use vstd::utf8::encode_utf8;
use crate::address::{Address, is_zeroed};
use crate::errors::RuntimeError;
use crate::state::auction::ProductType;

verus! {

/// Marketplace category.
#[derive(Clone, Copy, Debug, PartialEq, Eq, Structural)]
pub enum Category {
    Art,
    Collectibles,
    Gaming,
    Music,
    Photography,
    Sports,
    Electronics,
    Fashion,
    HomeGarden,
    Jewelry,
    Vehicles,
    Antiques,
    Software,
    Ebooks,
    Courses,
    Templates,
    Domains,
    Consulting,
    Design,
    Development,
    Marketing,
    Writing,
    Other,
}

impl Default for Category {
    fn default() -> (category: Self)
        ensures
            category == Category::Other,
    {
        Category::Other
    }
}

/// Condition of physical goods.
#[derive(Clone, Copy, Debug, PartialEq, Eq, Structural)]
pub enum Condition {
    New,
    LikeNew,
    Excellent,
    Good,
    Fair,
    ForParts,
}

impl Default for Condition {
    fn default() -> (condition: Self)
        ensures
            condition == Condition::New,
    {
        Condition::New
    }
}

/// Shipping terms of physical goods.
#[derive(Clone, Debug, PartialEq, Eq)]
pub struct ShippingOptions {
    /// Ships within the country.
    pub domestic: bool,
    /// Ships abroad.
    pub international: bool,
    /// Estimated cost, in cents.
    pub estimated_cost: u64,
    /// Estimated days to delivery.
    pub estimated_days: u8,
    /// Carriers on offer.
    pub carriers: Vec<String>,
    /// Country shipped from.
    pub ships_from: String,
    /// Countries not shipped to.
    pub restricted_destinations: Vec<String>,
}

impl Default for ShippingOptions {
    fn default() -> (terms: Self)
        ensures
            terms.domestic,
            !terms.international,
            terms.estimated_cost == 0,
            terms.estimated_days == 7,
            terms.carriers@ == Seq::<String>::empty(),
            terms.ships_from@ == "US"@,
            terms.restricted_destinations@ == Seq::<String>::empty(),
    {
        ShippingOptions {
            domestic: true,
            international: false,
            estimated_cost: 0,
            estimated_days: 7,
            carriers: Vec::new(),
            ships_from: String::from_str("US"),
            restricted_destinations: Vec::new(),
        }
    }
}

/// License that digital goods come with.
#[derive(Clone, Copy, Debug, PartialEq, Eq, Structural)]
pub enum LicenseType {
    Personal,
    Commercial,
    Enterprise,
    Unlimited,
}

impl Default for LicenseType {
    fn default() -> (license: Self)
        ensures
            license == LicenseType::Personal,
    {
        LicenseType::Personal
    }
}

/// Delivery terms of digital goods.
#[derive(Clone, Debug, PartialEq, Eq)]
pub struct DigitalDelivery {
    /// File format.
    pub format: String,
    /// File size in bytes.
    pub file_size: u64,
    /// Encrypted download link, disclosed to the winner.
    pub encrypted_link: Vec<u8>,
    /// License granted.
    pub license_type: LicenseType,
    /// Downloads allowed.
    pub max_downloads: u8,
    /// Moment the download expires.
    pub expires_at: i64,
}

impl Default for DigitalDelivery {
    fn default() -> (terms: Self)
        ensures
            terms.format@ == Seq::<char>::empty(),
            terms.file_size == 0,
            terms.encrypted_link@ == Seq::<u8>::empty(),
            terms.license_type == LicenseType::Personal,
            terms.max_downloads == 3,
            terms.expires_at == 0,
    {
        DigitalDelivery {
            format: String::new(),
            file_size: 0,
            encrypted_link: Vec::new(),
            license_type: LicenseType::Personal,
            max_downloads: 3,
            expires_at: 0,
        }
    }
}

/// Terms of a service.
#[derive(Clone, Debug, PartialEq, Eq)]
pub struct ServiceDetails {
    /// What the service is.
    pub service_type: String,
    /// Hours the service takes.
    pub duration_hours: u32,
    /// Moment until which the service can be redeemed.
    pub redemption_deadline: i64,
    /// Whether the service is provided remotely.
    pub remote: bool,
    /// Encrypted location of a service in person.
    pub location_encrypted: Vec<u8>,
    /// Qualifications of the provider.
    pub qualifications: String,
}

impl Default for ServiceDetails {
    fn default() -> (terms: Self)
        ensures
            terms.service_type@ == Seq::<char>::empty(),
            terms.duration_hours == 1,
            terms.redemption_deadline == 0,
            terms.remote,
            terms.location_encrypted@ == Seq::<u8>::empty(),
            terms.qualifications@ == Seq::<char>::empty(),
    {
        ServiceDetails {
            service_type: String::new(),
            duration_hours: 1,
            redemption_deadline: 0,
            remote: true,
            location_encrypted: Vec::new(),
            qualifications: String::new(),
        }
    }
}

/// Whether a product of the given type comes with the terms it needs: a
/// token auction names the token and the account it is held in, physical
/// goods have shipping terms, digital goods have delivery terms, and a
/// service has service terms.
pub open spec fn has_required_terms(
    product_type: ProductType,
    names_token: bool,
    holds_token: bool,
    has_shipping: bool,
    has_digital_delivery: bool,
    has_service_details: bool,
) -> bool {
    match product_type {
        ProductType::Nft => names_token && holds_token,
        ProductType::Physical => has_shipping,
        ProductType::Digital => has_digital_delivery,
        ProductType::Service => has_service_details,
    }
}

/// Computes `has_required_terms`.
pub fn required_terms_present(
    product_type: ProductType,
    names_token: bool,
    holds_token: bool,
    has_shipping: bool,
    has_digital_delivery: bool,
    has_service_details: bool,
) -> (present: bool)
    ensures
        present == has_required_terms(
            product_type,
            names_token,
            holds_token,
            has_shipping,
            has_digital_delivery,
            has_service_details,
        ),
{
    match product_type {
        ProductType::Nft => names_token && holds_token,
        ProductType::Physical => has_shipping,
        ProductType::Digital => has_digital_delivery,
        ProductType::Service => has_service_details,
    }
}

/// The description of a product on sale.
#[derive(Debug, Clone, PartialEq, Eq)]
pub struct ProductMetadata {
    /// Key of this record.
    pub product_id: Address,
    /// The auction that sells the product.
    pub auction_id: Address,
    /// Kind of good.
    pub product_type: ProductType,
    /// Marketplace category.
    pub category: Category,
    /// Content address of the full description.
    pub ipfs_hash: String,
    /// Title.
    pub title: String,
    /// Short description.
    pub description: String,
    /// Image locations.
    pub images: Vec<String>,
    /// The seller.
    pub seller: Address,
    /// Condition, for physical goods.
    pub condition: Option<Condition>,
    /// Shipping terms, for physical goods.
    pub shipping: Option<ShippingOptions>,
    /// Delivery terms, for digital goods.
    pub digital_delivery: Option<DigitalDelivery>,
    /// Terms, for services.
    pub service_details: Option<ServiceDetails>,
    /// Token on sale, for token auctions.
    pub nft_mint: Option<Address>,
    /// Time of creation.
    pub created_at: i64,
    /// Whether the platform has verified the product.
    pub verified: bool,
    /// Address derivation seed.
    pub bump: u8,
}

impl ProductMetadata {
    /// Most bytes a title may take.
    pub const MAX_TITLE_LEN: usize = 100;

    /// Most bytes a description may take.
    pub const MAX_DESCRIPTION_LEN: usize = 500;

    /// Most images a product may show.
    pub const MAX_IMAGES: usize = 10;

    /// Most bytes a content address may take.
    pub const MAX_IPFS_HASH_LEN: usize = 64;

    /// Whether title, description and images fit the space reserved for
    /// them; texts are measured in bytes of their UTF-8 form.
    pub open spec fn fits(&self) -> bool {
        &&& encode_utf8(self.title@).len() <= 100
        &&& encode_utf8(self.description@).len() <= 500
        &&& self.images@.len() <= 10
    }

    /// Checks that the description fits its record, and fails with
    /// `AccountDidNotSerialize` where it does not.
    pub fn validate(&self) -> (verdict: Result<(), RuntimeError>)
        ensures
            verdict is Ok <==> self.fits(),
            verdict is Err ==> verdict == Err::<(), RuntimeError>(
                RuntimeError::AccountDidNotSerialize,
            ),
    {
        if self.title.as_str().as_bytes().len() > Self::MAX_TITLE_LEN {
            return Err(RuntimeError::AccountDidNotSerialize);
        }
        if self.description.as_str().as_bytes().len() > Self::MAX_DESCRIPTION_LEN {
            return Err(RuntimeError::AccountDidNotSerialize);
        }
        if self.images.len() > Self::MAX_IMAGES {
            return Err(RuntimeError::AccountDidNotSerialize);
        }
        Ok(())
    }
}

/// The part of a product description that goes into the compressed index.
#[derive(Clone, Debug, PartialEq, Eq)]
pub struct CompressedProductMetadata {
    pub product_id: [u8; 32],
    pub auction_id: [u8; 32],
    pub product_type: u8,
    pub category: u8,
    pub ipfs_hash: [u8; 64],
    pub seller: [u8; 32],
    pub created_at: i64,
}

impl CompressedProductMetadata {
    /// Length of the compact record.
    pub const SERIALIZED_SIZE: usize = 170;
}

impl ProductMetadata {
    /// A product record with nothing entered.
    pub open spec fn is_blank(&self) -> bool {
        &&& is_zeroed(self.product_id)
        &&& is_zeroed(self.auction_id)
        &&& self.product_type == ProductType::Nft
        &&& self.category == Category::Other
        &&& self.ipfs_hash@.len() == 0
        &&& self.title@.len() == 0
        &&& self.description@.len() == 0
        &&& self.images@.len() == 0
        &&& is_zeroed(self.seller)
        &&& self.condition is None
        &&& self.shipping is None
        &&& self.digital_delivery is None
        &&& self.service_details is None
        &&& self.nft_mint is None
        &&& self.created_at == 0
        &&& !self.verified
        &&& self.bump == 0
    }
}

impl Default for ProductMetadata {
    fn default() -> (product: Self)
        ensures
            product.is_blank(),
    {
        ProductMetadata {
            product_id: [0u8; 32],
            auction_id: [0u8; 32],
            product_type: ProductType::Nft,
            category: Category::Other,
            ipfs_hash: String::new(),
            title: String::new(),
            description: String::new(),
            images: Vec::new(),
            seller: [0u8; 32],
            condition: None,
            shipping: None,
            digital_delivery: None,
            service_details: None,
            nft_mint: None,
            created_at: 0,
            verified: false,
            bump: 0,
        }
    }
}

} // verus!
