//! Plain data shapes of the surrounding marketplace service.
//!
//! The backend around the chain client exchanges these records with its
//! HTTP handlers and its store. They carry no behaviour here; the driver
//! layer attaches serialisation to its own copies.

use vstd::prelude::*;

verus! {

/// Process configuration, as read from the environment by the driver.
#[derive(Debug, Clone)]
pub struct Config {
    pub host: String,
    pub port: u16,
    pub database_url: String,
    pub jwt_secret: String,
    pub jwt_expiration: i64,
    pub cors_origin: String,
    pub google_client_id: String,
    pub google_client_secret: String,
    pub rate_limit_max: usize,
    pub rate_limit_window: u64,
}

/// Claims carried in an access token.
#[derive(Debug, Clone)]
pub struct Claims {
    pub sub: i64,
    pub exp: i64,
}

#[derive(Debug)]
pub struct RegisterPayload {
    pub email: String,
    pub password: Option<String>,
    pub username: Option<String>,
}

#[derive(Debug)]
pub struct LoginPayload {
    pub email: String,
    pub password: String,
}

#[derive(Debug)]
pub struct GoogleAuthPayload {
    pub token: String,
}

#[derive(Debug)]
pub struct WalletAuthPayload {
    pub wallet_address: String,
    pub signature: Option<String>,
}

#[derive(Debug)]
pub struct RefreshTokenPayload {
    pub refresh_token: String,
}

#[derive(Debug)]
pub struct UpdateProfilePayload {
    pub username: Option<String>,
    pub email: Option<String>,
    pub profile_picture: Option<String>,
}

#[derive(Debug)]
pub struct UserResponse {
    pub id: i64,
    pub wallet_address: Option<String>,
    pub email: Option<String>,
    pub username: Option<String>,
    pub role: String,
    pub profile_picture: Option<String>,
}

#[derive(Debug)]
pub struct AuthResponse {
    pub success: bool,
    pub token: String,
    pub user: UserResponse,
}

#[derive(Debug)]
pub struct CreateUser {
    pub wallet_address: Option<String>,
    pub email: Option<String>,
    pub username: Option<String>,
    pub google_id: Option<String>,
    pub profile_picture: Option<String>,
}

#[derive(Debug)]
pub struct JoinBounty {
    pub bounty_id: String,
}

#[derive(Debug)]
pub struct CreateSubmission {
    pub bounty_id: String,
    pub content: String,
}

#[derive(Debug)]
pub struct ReviewSubmission {
    pub status: String,
    pub feedback: Option<String>,
}

#[derive(Debug)]
pub struct PaymentChain {
    pub id: i64,
    pub chain_id: String,
    pub chain_name: String,
    pub usdt_contract_address: String,
    pub is_active: bool,
    pub created_at: String,
}

#[derive(Debug)]
pub struct UserSubscription {
    pub id: i64,
    pub user_id: i64,
    pub wallet_address: String,
    pub plan_id: i64,
    pub status: String,
    pub reports_used: i64,
    pub reports_limit: i64,
    pub start_date: String,
    pub end_date: String,
    pub payment_chain_id: Option<String>,
    pub tx_hash: Option<String>,
    pub created_at: String,
    pub updated_at: String,
}

#[derive(Debug)]
pub struct ReportUsage {
    pub id: i64,
    pub user_id: i64,
    pub contract_address: String,
    pub report_type: String,
    pub payment_type: String,
    pub subscription_id: Option<i64>,
    pub transaction_id: Option<i64>,
    pub is_admin_generated: bool,
    pub created_at: String,
}

#[derive(Debug)]
pub struct CreatePaymentRequest {
    pub plan_id: i64,
    pub wallet_address: String,
    pub chain_id: String,
    pub tx_hash: String,
}

#[derive(Debug)]
pub struct CreateSubscriptionRequest {
    pub plan_id: i64,
    pub wallet_address: String,
    pub chain_id: String,
    pub tx_hash: String,
}

#[derive(Debug)]
pub struct CancelSubscriptionRequest {
    pub subscription_id: i64,
}

#[derive(Debug)]
pub struct SubscriptionStatus {
    pub has_active_subscription: bool,
    pub subscription: Option<UserSubscription>,
    pub reports_remaining: i64,
    pub can_generate_report: bool,
    pub is_admin: bool,
}

#[derive(Debug)]
pub struct PaymentResponse {
    pub success: bool,
    pub transaction_id: Option<i64>,
    pub message: String,
}

} // verus!
